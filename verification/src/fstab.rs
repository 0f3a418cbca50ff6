use vstd::prelude::*;
use crate::text::chars_of;

verus! {

/// Whether `part` stands in `text` at position `at`.
pub open spec fn occurs_at(text: Seq<char>, part: Seq<char>, at: int) -> bool {
    0 <= at && at + part.len() <= text.len() && text.subrange(at, at + part.len()) == part
}

/// Whether `part` stands somewhere in `text`, character for character.
pub open spec fn contains(text: Seq<char>, part: Seq<char>) -> bool {
    exists|at: int| occurs_at(text, part, at)
}

/// The positions at which `part` stands in `text`.
pub open spec fn occurrences(text: Seq<char>, part: Seq<char>) -> Set<int> {
    Set::new(|at: int| occurs_at(text, part, at))
}

/// The line of the mount table that activates the swapfile at `path` when
/// the system boots.
pub open spec fn mount_entry(path: Seq<char>) -> Seq<char> {
    path + " none swap sw 0 0\n"@
}

/// The mount table after the entry for `path` has been recorded in it: as
/// it was where it holds the entry already, else with the entry at its
/// end.
pub open spec fn persisted(existing: Seq<char>, path: Seq<char>) -> Seq<char> {
    if contains(existing, mount_entry(path)) {
        existing
    } else {
        existing + mount_entry(path)
    }
}

fn matches_at(text: &Vec<char>, part: &Vec<char>, at: usize) -> (b: bool)
    requires
        at + part.len() <= text.len(),
    ensures
        b == occurs_at(text@, part@, at as int),
{
    let mut k: usize = 0;
    while k < part.len()
        invariant
            k <= part.len(),
            at + part.len() <= text.len(),
            forall|j: int| 0 <= j < k ==> text@[at + j] == part@[j],
        decreases part.len() - k,
    {
        if text[at + k] != part[k] {
            return false;
        }
        k += 1;
    }
    assert(text@.subrange(at as int, at + part.len()) =~= part@);
    true
}

/// Whether `part` stands somewhere in `text`.
pub fn contains_text(text: &str, part: &str) -> (b: bool)
    ensures
        b == contains(text@, part@),
{
    let t = chars_of(text);
    let p = chars_of(part);
    if p.len() > t.len() {
        return false;
    }
    let last: usize = t.len() - p.len();
    let mut at: usize = 0;
    loop
        invariant
            at <= last,
            last == t.len() - p.len(),
            t@ == text@,
            p@ == part@,
            forall|k: int| 0 <= k < at ==> !occurs_at(t@, p@, k),
        decreases last - at,
    {
        if matches_at(&t, &p, at) {
            return true;
        }
        if at == last {
            return false;
        }
        at += 1;
    }
}

/// The mount table's line for the swapfile at `path`.
pub fn fstab_line(path: &str) -> (line: String)
    ensures
        line@ == mount_entry(path@),
{
    let mut line = String::from_str(path);
    line.append(" none swap sw 0 0\n");
    line
}

/// Decides what recording the swapfile at `path` takes, given what the
/// mount table holds: `None` where the entry stands in it already,
/// else the line to put at its end.
pub fn line_to_append(existing: &str, path: &str) -> (line: Option<String>)
    ensures
        match line {
            None => contains(existing@, mount_entry(path@)),
            Some(l) => !contains(existing@, mount_entry(path@)) && l@ == mount_entry(path@),
        },
{
    let line = fstab_line(path);
    if contains_text(existing, line.as_str()) {
        None
    } else {
        Some(line)
    }
}

/// A text that ends in `part` holds it.
pub proof fn lemma_contains_appended(text: Seq<char>, part: Seq<char>)
    ensures
        occurs_at(text + part, part, text.len() as int),
        contains(text + part, part),
{
    assert((text + part).subrange(text.len() as int, (text.len() + part.len()) as int) =~= part);
}

/// Recording an entry a second time changes nothing: the mount table
/// after two recordings is the mount table after one.
pub proof fn law_recording_is_idempotent(existing: Seq<char>, path: Seq<char>)
    ensures
        contains(persisted(existing, path), mount_entry(path)),
        persisted(persisted(existing, path), path) == persisted(existing, path),
{
    lemma_contains_appended(existing, mount_entry(path));
}

/// An entry reaches into nothing that precedes it: in a text that ends in
/// the entry of a path without line breaks, any occurrence of the entry
/// that begins before the last one ends before it begins.
proof fn lemma_no_overlap(existing: Seq<char>, path: Seq<char>, at: int)
    requires
        !path.contains('\n'),
        occurs_at(existing + mount_entry(path), mount_entry(path), at),
        at != existing.len(),
    ensures
        occurs_at(existing, mount_entry(path), at),
{
    reveal_strlit(" none swap sw 0 0\n");
    let tail = " none swap sw 0 0\n"@;
    let entry = mount_entry(path);
    let text = existing + entry;
    let n = entry.len() as int;
    if at + n > existing.len() {
        // the occurrence would end inside the appended entry, on a line
        // break that is not the entry's last character
        let j = at + n - 1 - existing.len();
        assert(text.subrange(at, at + n)[n - 1] == text[at + n - 1]);
        assert(entry[n - 1] == tail[17]);
        if j < path.len() {
            assert(path.contains(path[j]));
        } else {
            assert(entry[j] == tail[j - path.len()]);
        }
        assert(false);
    }
    assert(existing.subrange(at, at + n) =~= text.subrange(at, at + n));
}

/// Recording an entry twice leaves it in the mount table exactly once,
/// where the path holds no line break and the table held the entry at
/// most once before.
pub proof fn law_recorded_once(existing: Seq<char>, path: Seq<char>)
    requires
        !path.contains('\n'),
        forall|i: int, j: int|
            occurs_at(existing, mount_entry(path), i) && occurs_at(existing, mount_entry(path), j)
                ==> i == j,
    ensures
        occurrences(persisted(persisted(existing, path), path), mount_entry(path)).len() == 1,
{
    let entry = mount_entry(path);
    law_recording_is_idempotent(existing, path);
    let text = persisted(existing, path);
    let found = occurrences(text, entry);
    if contains(existing, entry) {
        let at = choose|at: int| occurs_at(existing, entry, at);
        assert(found =~= set![at]);
    } else {
        lemma_contains_appended(existing, entry);
        assert forall|at: int| found.contains(at) implies at == existing.len() by {
            if at != existing.len() {
                lemma_no_overlap(existing, path, at);
            }
        }
        assert(found =~= set![existing.len() as int]);
    }
}

} // verus!
