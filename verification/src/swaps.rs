use vstd::prelude::*;
use crate::human::{human_readable, human_readable_bytes};
use crate::size::{all_digits, decimal_value, digits_only, digits_value, MAX_BYTES};
use crate::text::{chars_of, push_char, string_of};

verus! {

/// Whether a character is white space, as Unicode classes it.
pub open spec fn is_space(c: char) -> bool {
    let u = c as u32;
    (0x09 <= u <= 0x0d) || u == 0x20 || u == 0x85 || u == 0xa0 || u == 0x1680 || (0x2000 <= u
        <= 0x200a) || u == 0x2028 || u == 0x2029 || u == 0x202f || u == 0x205f || u == 0x3000
}

/// A line without the carriage return that it may end in.
pub open spec fn strip_return(line: Seq<char>) -> Seq<char> {
    if line.len() > 0 && line.last() == '\r' {
        line.drop_last()
    } else {
        line
    }
}

/// What reading a text for its lines has found at some point: the lines
/// that a line feed has ended, and the characters behind the last of them.
pub struct LineScan {
    pub ended: Seq<Seq<char>>,
    pub rest: Seq<char>,
}

/// Reads a text character by character. A line feed ends a line, and
/// with a carriage return just before it the two end it together; any
/// other character belongs to the line it stands in.
pub open spec fn scan_lines(text: Seq<char>) -> LineScan
    decreases text.len(),
{
    if text.len() == 0 {
        LineScan { ended: seq![], rest: seq![] }
    } else {
        let before = scan_lines(text.drop_last());
        if text.last() == '\n' {
            LineScan { ended: before.ended.push(strip_return(before.rest)), rest: seq![] }
        } else {
            LineScan { ended: before.ended, rest: before.rest.push(text.last()) }
        }
    }
}

/// The lines of a text, without their line ends. Characters behind the
/// last line feed make a line of their own; where there are none, the
/// text's last line is the one that its last line feed ends.
pub open spec fn lines_of(text: Seq<char>) -> Seq<Seq<char>> {
    let scan = scan_lines(text);
    if scan.rest.len() > 0 {
        scan.ended.push(scan.rest)
    } else {
        scan.ended
    }
}

/// The fields of a line: its longest runs of characters that are not
/// white space, from left to right.
pub open spec fn fields_of(line: Seq<char>) -> Seq<Seq<char>>
    decreases line.len(),
{
    if line.len() == 0 {
        seq![]
    } else {
        let before = fields_of(line.drop_last());
        if is_space(line.last()) {
            before
        } else if line.len() >= 2 && !is_space(line[line.len() - 2]) {
            before.drop_last().push(before.last().push(line.last()))
        } else {
            before.push(seq![line.last()])
        }
    }
}

/// The character sequences that a vector of character vectors holds.
pub open spec fn views_of(rows: Seq<Vec<char>>) -> Seq<Seq<char>> {
    rows.map_values(|row: Vec<char>| row@)
}

fn is_space_char(c: char) -> (b: bool)
    ensures
        b == is_space(c),
{
    let u: u32 = c as u32;
    (0x09 <= u && u <= 0x0d) || u == 0x20 || u == 0x85 || u == 0xa0 || u == 0x1680 || (0x2000 <= u
        && u <= 0x200a) || u == 0x2028 || u == 0x2029 || u == 0x202f || u == 0x205f || u == 0x3000
}

/// Splits a text into its lines.
pub(crate) fn split_lines(text: &Vec<char>) -> (lines: Vec<Vec<char>>)
    ensures
        views_of(lines@) == lines_of(text@),
{
    let mut lines: Vec<Vec<char>> = Vec::new();
    let mut rest: Vec<char> = Vec::new();
    let mut i: usize = 0;
    while i < text.len()
        invariant
            i <= text.len(),
            scan_lines(text@.take(i as int)).ended =~= views_of(lines@),
            scan_lines(text@.take(i as int)).rest =~= rest@,
        decreases text.len() - i,
    {
        let c = text[i];
        proof {
            assert(text@.take(i + 1).drop_last() =~= text@.take(i as int));
        }
        if c == '\n' {
            let n = rest.len();
            if n > 0 && rest[n - 1] == '\r' {
                rest.pop();
            }
            lines.push(rest);
            rest = Vec::new();
        } else {
            rest.push(c);
        }
        i += 1;
    }
    assert(text@.take(text.len() as int) =~= text@);
    if rest.len() > 0 {
        lines.push(rest);
    }
    lines
}

/// Splits a line into its fields.
pub(crate) fn split_fields(line: &Vec<char>) -> (fields: Vec<Vec<char>>)
    ensures
        views_of(fields@) == fields_of(line@),
{
    let mut fields: Vec<Vec<char>> = Vec::new();
    let mut run: Vec<char> = Vec::new();
    let mut i: usize = 0;
    while i < line.len()
        invariant
            i <= line.len(),
            run.len() > 0 <==> i > 0 && !is_space(line@[i - 1]),
            fields_of(line@.take(i as int)) =~= if run.len() > 0 {
                views_of(fields@).push(run@)
            } else {
                views_of(fields@)
            },
        decreases line.len() - i,
    {
        let c = line[i];
        proof {
            let upto = line@.take(i + 1);
            assert(upto.drop_last() =~= line@.take(i as int));
        }
        if is_space_char(c) {
            if run.len() > 0 {
                fields.push(run);
                run = Vec::new();
            }
        } else {
            let ghost fresh = run.len() == 0;
            run.push(c);
            assert(fresh ==> run@ =~= seq![c]);
        }
        i += 1;
    }
    assert(line@.take(line.len() as int) =~= line@);
    if run.len() > 0 {
        fields.push(run);
    }
    fields
}

/// The number that a field writes: digits in base ten, with or without a
/// plus sign in front. A field that writes no number, or one beyond
/// 64 bits, counts as zero.
pub open spec fn field_number(field: Seq<char>) -> nat {
    let digits = if field.len() > 0 && field[0] == '+' {
        field.skip(1)
    } else {
        field
    };
    if digits.len() > 0 && all_digits(digits) && decimal_value(digits) <= MAX_BYTES {
        decimal_value(digits)
    } else {
        0
    }
}

fn number_of(field: &Vec<char>) -> (n: u64)
    ensures
        n == field_number(field@),
{
    let mut digits: Vec<char> = Vec::new();
    let signed = field.len() > 0 && field[0] == '+';
    let mut i: usize = if signed {
        1
    } else {
        0
    };
    let ghost first = i as int;
    while i < field.len()
        invariant
            0 <= first <= i <= field.len(),
            digits@ =~= field@.subrange(first, i as int),
        decreases field.len() - i,
    {
        digits.push(field[i]);
        i += 1;
    }
    assert(digits@.take(digits.len() as int) =~= digits@);
    assert(first == 0 ==> field@.skip(first) =~= field@);
    if digits.len() == 0 || !digits_only(&digits, digits.len()) {
        return 0;
    }
    match digits_value(&digits, digits.len()) {
        Some(n) => n,
        None => 0,
    }
}

/// One swap area, as a line of the swap table describes it.
#[derive(Clone, Debug, PartialEq, Eq)]
pub struct SwapEntry {
    /// The line itself.
    pub line: String,
    /// The device or file that holds the area.
    pub device: String,
    /// Its type.
    pub kind: String,
    /// Its size, in KiB.
    pub size_kib: u64,
    /// How much of it is in use, in KiB.
    pub used_kib: u64,
    /// Its priority, as written.
    pub priority: String,
}

pub struct SwapEntryView {
    pub line: Seq<char>,
    pub device: Seq<char>,
    pub kind: Seq<char>,
    pub size_kib: nat,
    pub used_kib: nat,
    pub priority: Seq<char>,
}

impl View for SwapEntry {
    type V = SwapEntryView;

    open spec fn view(&self) -> SwapEntryView {
        SwapEntryView {
            line: self.line@,
            device: self.device@,
            kind: self.kind@,
            size_kib: self.size_kib as nat,
            used_kib: self.used_kib as nat,
            priority: self.priority@,
        }
    }
}

/// The swap area that a line describes. A line of fewer than five fields
/// describes none.
pub open spec fn entry_of(line: Seq<char>) -> Option<SwapEntryView> {
    let fields = fields_of(line);
    if fields.len() >= 5 {
        Some(
            SwapEntryView {
                line,
                device: fields[0],
                kind: fields[1],
                size_kib: field_number(fields[2]),
                used_kib: field_number(fields[3]),
                priority: fields[4],
            },
        )
    } else {
        None
    }
}

/// The swap areas that a sequence of lines describes, in their order.
pub open spec fn entries_of(lines: Seq<Seq<char>>) -> Seq<SwapEntryView>
    decreases lines.len(),
{
    if lines.len() == 0 {
        seq![]
    } else {
        match entry_of(lines.last()) {
            Some(entry) => entries_of(lines.drop_last()).push(entry),
            None => entries_of(lines.drop_last()),
        }
    }
}

/// The size of all the areas together, in bytes.
pub open spec fn size_bytes(entries: Seq<SwapEntryView>) -> nat
    decreases entries.len(),
{
    if entries.len() == 0 {
        0
    } else {
        size_bytes(entries.drop_last()) + entries.last().size_kib * 1024
    }
}

/// What is in use of all the areas together, in bytes.
pub open spec fn used_bytes(entries: Seq<SwapEntryView>) -> nat
    decreases entries.len(),
{
    if entries.len() == 0 {
        0
    } else {
        used_bytes(entries.drop_last()) + entries.last().used_kib * 1024
    }
}

fn read_entry(line: &Vec<char>) -> (entry: Option<SwapEntry>)
    ensures
        match entry {
            Some(e) => entry_of(line@) == Some(e@),
            None => entry_of(line@) is None,
        },
{
    let fields = split_fields(line);
    if fields.len() < 5 {
        return None;
    }
    Some(
        SwapEntry {
            line: string_of(line),
            device: string_of(&fields[0]),
            kind: string_of(&fields[1]),
            size_kib: number_of(&fields[2]),
            used_kib: number_of(&fields[3]),
            priority: string_of(&fields[4]),
        },
    )
}

/// What a swap table says: its heading, the areas it lists, and their
/// totals in bytes.
#[derive(Clone, Debug, PartialEq, Eq)]
pub struct SwapReport {
    pub header: String,
    pub entries: Vec<SwapEntry>,
    pub total_size: u64,
    pub total_used: u64,
}

pub struct SwapReportView {
    pub header: Seq<char>,
    pub entries: Seq<SwapEntryView>,
    pub total_size: nat,
    pub total_used: nat,
}

/// The areas of a vector, each as its view.
pub open spec fn entry_views(entries: Seq<SwapEntry>) -> Seq<SwapEntryView> {
    entries.map_values(|e: SwapEntry| e@)
}

impl View for SwapReport {
    type V = SwapReportView;

    open spec fn view(&self) -> SwapReportView {
        SwapReportView {
            header: self.header@,
            entries: entry_views(self.entries@),
            total_size: self.total_size as nat,
            total_used: self.total_used as nat,
        }
    }
}

/// The lines of a table that may describe areas: all but the first.
pub open spec fn data_lines(lines: Seq<Seq<char>>) -> Seq<Seq<char>> {
    if lines.len() == 0 {
        seq![]
    } else {
        lines.skip(1)
    }
}

/// What the text of a swap table says. Its first line is the heading,
/// whatever it holds; each further line of five fields or more describes
/// an area, its third field the size and its fourth the use; other lines
/// are passed over.
pub open spec fn report_of(text: Seq<char>) -> SwapReportView {
    let lines = lines_of(text);
    let entries = entries_of(data_lines(lines));
    SwapReportView {
        header: if lines.len() == 0 {
            seq![]
        } else {
            lines[0]
        },
        entries,
        total_size: size_bytes(entries),
        total_used: used_bytes(entries),
    }
}

/// Reads the text of a swap table. The result is `None` exactly when one
/// of the two totals does not fit in 64 bits.
pub fn read_swap_table(text: &str) -> (report: Option<SwapReport>)
    ensures
        match report {
            Some(r) => r@ == report_of(text@),
            None => report_of(text@).total_size > MAX_BYTES || report_of(text@).total_used
                > MAX_BYTES,
        },
{
    let chars = chars_of(text);
    let lines = split_lines(&chars);
    let ghost data = data_lines(views_of(lines@));
    let header = if lines.len() == 0 {
        String::new()
    } else {
        string_of(&lines[0])
    };
    let mut entries: Vec<SwapEntry> = Vec::new();
    let mut total_size: u64 = 0;
    let mut total_used: u64 = 0;
    let mut fits = true;
    let mut i: usize = 1;
    while i < lines.len()
        invariant
            1 <= i,
            i <= lines.len() || i == 1,
            data == data_lines(views_of(lines@)),
            entry_views(entries@) =~= entries_of(data.take(i - 1)),
            fits ==> total_size == size_bytes(entry_views(entries@)),
            fits ==> total_used == used_bytes(entry_views(entries@)),
            !fits ==> size_bytes(entry_views(entries@)) > MAX_BYTES || used_bytes(
                entry_views(entries@),
            ) > MAX_BYTES,
        decreases lines.len() - i,
    {
        proof {
            assert(data.take(i as int).drop_last() =~= data.take(i - 1));
        }
        match read_entry(&lines[i]) {
            Some(entry) => {
                let ghost before = entry_views(entries@);
                let size = entry.size_kib.checked_mul(1024);
                let used = entry.used_kib.checked_mul(1024);
                entries.push(entry);
                proof {
                    assert(entry_views(entries@).drop_last() =~= before);
                }
                if fits {
                    match (size, used) {
                        (Some(s), Some(u)) => match (
                            total_size.checked_add(s),
                            total_used.checked_add(u),
                        ) {
                            (Some(ts), Some(tu)) => {
                                total_size = ts;
                                total_used = tu;
                            },
                            _ => {
                                fits = false;
                            },
                        },
                        _ => {
                            fits = false;
                        },
                    }
                }
            },
            None => {},
        }
        i += 1;
    }
    proof {
        assert(data.take(i - 1) =~= data);
    }
    if fits {
        Some(SwapReport { header, entries, total_size, total_used })
    } else {
        None
    }
}

/// A text without line feeds is one line, or none where it is empty.
pub proof fn law_unbroken_text_is_one_line(text: Seq<char>)
    requires
        !text.contains('\n'),
    ensures
        scan_lines(text) == (LineScan { ended: Seq::empty(), rest: text }),
        lines_of(text) == if text.len() > 0 {
            seq![text]
        } else {
            Seq::<Seq<char>>::empty()
        },
    decreases text.len(),
{
    if text.len() > 0 {
        let front = text.drop_last();
        assert forall|i: int| 0 <= i < front.len() implies front[i] != '\n' by {}
        law_unbroken_text_is_one_line(front);
    }
    assert(scan_lines(text).rest =~= text);
}

/// A line feed parts a text: the lines of what stands up to it and the
/// lines of what stands behind it are, one after the other, the lines of
/// the whole.
pub proof fn law_line_feed_parts_the_text(head: Seq<char>, tail: Seq<char>)
    ensures
        scan_lines(head.push('\n') + tail).ended == lines_of(head.push('\n')) + scan_lines(
            tail,
        ).ended,
        scan_lines(head.push('\n') + tail).rest == scan_lines(tail).rest,
        lines_of(head.push('\n') + tail) == lines_of(head.push('\n')) + lines_of(tail),
    decreases tail.len(),
{
    let first = head.push('\n');
    let whole = first + tail;
    if tail.len() > 0 {
        law_line_feed_parts_the_text(head, tail.drop_last());
        assert(whole.drop_last() =~= first + tail.drop_last());
    }
}

/// The line that a line feed ends is what stands before the line feed,
/// without the carriage return that it may end in.
pub proof fn law_line_feed_ends_a_line(line: Seq<char>)
    requires
        !line.contains('\n'),
    ensures
        lines_of(line.push('\n')) == seq![strip_return(line)],
{
    law_unbroken_text_is_one_line(line);
    assert(line.push('\n').drop_last() =~= line);
}

/// No field is empty, and none holds white space.
pub proof fn law_fields_hold_no_space(line: Seq<char>)
    ensures
        forall|i: int|
            0 <= i < fields_of(line).len() ==> (#[trigger] fields_of(line)[i]).len() > 0,
        forall|i: int, j: int|
            0 <= i < fields_of(line).len() && 0 <= j < fields_of(line)[i].len() ==> !is_space(
                #[trigger] fields_of(line)[i][j],
            ),
        line.len() > 0 && !is_space(line.last()) ==> fields_of(line).len() > 0,
    decreases line.len(),
{
    if line.len() > 0 {
        let before = fields_of(line.drop_last());
        let fields = fields_of(line);
        let c = line.last();
        law_fields_hold_no_space(line.drop_last());
        if !is_space(c) {
            assert forall|i: int| 0 <= i < fields.len() - 1 implies fields[i] == before[i] by {}
            assert forall|i: int| 0 <= i < fields.len() implies (#[trigger] fields[i]).len()
                > 0 by {}
            assert forall|i: int, j: int|
                0 <= i < fields.len() && 0 <= j < fields[i].len() implies !is_space(
                #[trigger] fields[i][j],
            ) by {}
        }
    }
}

/// A run of characters that are not white space is one field.
pub proof fn law_word_is_one_field(word: Seq<char>)
    requires
        word.len() > 0,
        forall|i: int| 0 <= i < word.len() ==> !is_space(#[trigger] word[i]),
    ensures
        fields_of(word) == seq![word],
    decreases word.len(),
{
    let front = word.drop_last();
    if word.len() == 1 {
        assert(fields_of(front) =~= Seq::<Seq<char>>::empty());
        assert(seq![word.last()] =~= word);
    } else {
        law_word_is_one_field(front);
        assert(front.push(word.last()) =~= word);
    }
}

/// White space parts a line: where one part ends in white space, or the
/// other begins with it, or one of them is empty, the fields of the two
/// parts are, one after the other, the fields of the whole. White space
/// alone holds no field.
pub proof fn law_white_space_parts_the_fields(left: Seq<char>, right: Seq<char>)
    requires
        left.len() == 0 || right.len() == 0 || is_space(left.last()) || is_space(right[0]),
    ensures
        fields_of(left + right) == fields_of(left) + fields_of(right),
        (forall|i: int| 0 <= i < right.len() ==> is_space(#[trigger] right[i])) ==> fields_of(
            right,
        ).len() == 0,
    decreases right.len(),
{
    let whole = left + right;
    if right.len() > 0 {
        let front = right.drop_last();
        assert(whole.drop_last() =~= left + front);
        law_white_space_parts_the_fields(left, front);
        law_fields_hold_no_space(front);
        assert forall|i: int| 0 <= i < front.len() implies right[i] == #[trigger] front[i] by {}
    }
}

/// The lines of the areas, each with a line feed behind it.
pub open spec fn echoed(entries: Seq<SwapEntryView>) -> Seq<char>
    decreases entries.len(),
{
    if entries.len() == 0 {
        seq![]
    } else {
        echoed(entries.drop_last()) + entries.last().line + seq!['\n']
    }
}

/// The line that gives the totals.
pub open spec fn total_line(used: nat, size: nat) -> Seq<char> {
    "Total: "@ + human_readable(used) + " used / "@ + human_readable(size) + " total"@
}

/// A report as text: the heading, the line of each area as it stood in
/// the table, an empty line, and the line of the totals.
pub open spec fn report_text(report: SwapReportView) -> Seq<char> {
    report.header + seq!['\n'] + echoed(report.entries) + seq!['\n'] + total_line(
        report.total_used,
        report.total_size,
    ) + seq!['\n']
}

impl SwapReport {
    /// The report as the text to show.
    pub fn render(&self) -> (text: String)
        ensures
            text@ == report_text(self@),
    {
        let mut out = self.header.clone();
        push_char(&mut out, '\n');
        let ghost head = out@;
        let mut i: usize = 0;
        while i < self.entries.len()
            invariant
                i <= self.entries.len(),
                out@ =~= head + echoed(entry_views(self.entries@).take(i as int)),
            decreases self.entries.len() - i,
        {
            proof {
                let upto = entry_views(self.entries@).take(i + 1);
                assert(upto.drop_last() =~= entry_views(self.entries@).take(i as int));
            }
            out.append(self.entries[i].line.as_str());
            push_char(&mut out, '\n');
            i += 1;
        }
        assert(entry_views(self.entries@).take(self.entries.len() as int) =~= entry_views(
            self.entries@,
        ));
        push_char(&mut out, '\n');
        out.append("Total: ");
        out.append(human_readable_bytes(self.total_used).as_str());
        out.append(" used / ");
        out.append(human_readable_bytes(self.total_size).as_str());
        out.append(" total");
        push_char(&mut out, '\n');
        out
    }
}

} // verus!
