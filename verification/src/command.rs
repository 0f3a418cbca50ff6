use vstd::prelude::*;
use crate::text::{chars_of, same_text};

verus! {

/// One thing the operator asks for.
#[derive(Clone, Debug, PartialEq, Eq)]
pub enum Action {
    /// List the active swap areas and their total.
    Show,
    /// Cycle swap off and on again.
    Empty,
    /// Replace the swapfile by one of the given size.
    SetSwap { size_token: String, replace: bool, persist: bool },
}

pub enum ActionView {
    Show,
    Empty,
    SetSwap { size_token: Seq<char>, replace: bool, persist: bool },
}

impl View for Action {
    type V = ActionView;

    open spec fn view(&self) -> ActionView {
        match *self {
            Action::Show => ActionView::Show,
            Action::Empty => ActionView::Empty,
            Action::SetSwap { size_token, replace, persist } => ActionView::SetSwap {
                size_token: size_token@,
                replace,
                persist,
            },
        }
    }
}

/// A token sequence that is no chain of actions.
#[derive(Clone, Debug, PartialEq, Eq)]
pub enum UsageError {
    /// `set` is the last token: its size is missing.
    MissingSize,
    /// A token behind the size of a `set` begins with two dashes and is
    /// neither `--replace` nor `--persist`.
    UnknownFlag(String),
    /// A token where an action is expected begins with a dash.
    MisplacedFlag(String),
    /// A token where an action is expected names none.
    UnknownCommand(String),
}

pub enum UsageErrorView {
    MissingSize,
    UnknownFlag(Seq<char>),
    MisplacedFlag(Seq<char>),
    UnknownCommand(Seq<char>),
}

impl View for UsageError {
    type V = UsageErrorView;

    open spec fn view(&self) -> UsageErrorView {
        match *self {
            UsageError::MissingSize => UsageErrorView::MissingSize,
            UsageError::UnknownFlag(t) => UsageErrorView::UnknownFlag(t@),
            UsageError::MisplacedFlag(t) => UsageErrorView::MisplacedFlag(t@),
            UsageError::UnknownCommand(t) => UsageErrorView::UnknownCommand(t@),
        }
    }
}

/// The tokens of a command line, each as its characters.
pub open spec fn token_views(tokens: Seq<String>) -> Seq<Seq<char>> {
    tokens.map_values(|t: String| t@)
}

/// Whether a token begins with two dashes, as a flag of `set` does.
pub open spec fn is_flag(token: Seq<char>) -> bool {
    token.len() >= 2 && token[0] == '-' && token[1] == '-'
}

/// Whether a token begins with a dash.
pub open spec fn is_dashed(token: Seq<char>) -> bool {
    token.len() >= 1 && token[0] == '-'
}

/// The flags of a `set`, read from position `from` on: where they end and
/// what they switch on, or the first of them that is not known.
pub enum FlagScan {
    Flags { next: int, replace: bool, persist: bool },
    Unknown { flag: Seq<char> },
}

/// Reads flags greedily: every token from `from` on that begins with two
/// dashes is taken as a flag, up to the first token that does not.
pub open spec fn scan_flags(tokens: Seq<Seq<char>>, from: int, replace: bool, persist: bool)
    -> FlagScan
    decreases tokens.len() - from,
{
    if from < 0 || from >= tokens.len() || !is_flag(tokens[from]) {
        FlagScan::Flags { next: from, replace, persist }
    } else if tokens[from] == "--replace"@ {
        scan_flags(tokens, from + 1, true, persist)
    } else if tokens[from] == "--persist"@ {
        scan_flags(tokens, from + 1, replace, true)
    } else {
        FlagScan::Unknown { flag: tokens[from] }
    }
}

/// What stands at position `from` of a token sequence.
pub enum Reading {
    /// Nothing: the sequence ends here.
    End,
    /// An action, whose tokens end before `next`.
    Next { action: ActionView, next: int },
    /// No action.
    Rejected(UsageErrorView),
}

/// The action that begins at position `from`.
pub open spec fn read_action(tokens: Seq<Seq<char>>, from: int) -> Reading {
    if from < 0 || from >= tokens.len() {
        Reading::End
    } else if tokens[from] == "show"@ {
        Reading::Next { action: ActionView::Show, next: from + 1 }
    } else if tokens[from] == "empty"@ {
        Reading::Next { action: ActionView::Empty, next: from + 1 }
    } else if tokens[from] == "set"@ {
        if from + 1 >= tokens.len() {
            Reading::Rejected(UsageErrorView::MissingSize)
        } else {
            match scan_flags(tokens, from + 2, false, false) {
                FlagScan::Flags { next, replace, persist } => Reading::Next {
                    action: ActionView::SetSwap { size_token: tokens[from + 1], replace, persist },
                    next,
                },
                FlagScan::Unknown { flag } => Reading::Rejected(UsageErrorView::UnknownFlag(flag)),
            }
        }
    } else if is_dashed(tokens[from]) {
        Reading::Rejected(UsageErrorView::MisplacedFlag(tokens[from]))
    } else {
        Reading::Rejected(UsageErrorView::UnknownCommand(tokens[from]))
    }
}

/// The result of `next_action`, as `read_action` gives it.
pub open spec fn reading_of(r: Result<Option<(Action, usize)>, UsageError>) -> Reading {
    match r {
        Ok(None) => Reading::End,
        Ok(Some((action, next))) => Reading::Next { action: action@, next: next as int },
        Err(e) => Reading::Rejected(e@),
    }
}

fn begins_with_dashes(token: &str, count: usize) -> (b: bool)
    requires
        count == 1 || count == 2,
    ensures
        b == if count == 1 {
            is_dashed(token@)
        } else {
            is_flag(token@)
        },
{
    let chars = chars_of(token);
    if chars.len() < count {
        return false;
    }
    if count == 1 {
        chars[0] == '-'
    } else {
        chars[0] == '-' && chars[1] == '-'
    }
}

/// Reads the action that begins at position `from` of the tokens, and
/// says where the next one begins. `Ok(None)` means that no token is left.
#[verifier::loop_isolation(false)]
pub fn next_action(tokens: &Vec<String>, from: usize) -> (r: Result<
    Option<(Action, usize)>,
    UsageError,
>)
    ensures
        reading_of(r) == read_action(token_views(tokens@), from as int),
{
    let ghost views = token_views(tokens@);
    if from >= tokens.len() {
        return Ok(None);
    }
    let word = tokens[from].as_str();
    if same_text(word, "show") {
        return Ok(Some((Action::Show, from + 1)));
    }
    if same_text(word, "empty") {
        return Ok(Some((Action::Empty, from + 1)));
    }
    if same_text(word, "set") {
        if from + 1 >= tokens.len() {
            return Err(UsageError::MissingSize);
        }
        let size_token = tokens[from + 1].clone();
        let mut replace = false;
        let mut persist = false;
        let mut next: usize = from + 2;
        while next < tokens.len() && begins_with_dashes(tokens[next].as_str(), 2)
            invariant
                from + 2 <= next <= tokens.len(),
                views == token_views(tokens@),
                scan_flags(views, from + 2, false, false) == scan_flags(
                    views,
                    next as int,
                    replace,
                    persist,
                ),
            decreases tokens.len() - next,
        {
            let flag = tokens[next].as_str();
            if same_text(flag, "--replace") {
                replace = true;
            } else if same_text(flag, "--persist") {
                persist = true;
            } else {
                return Err(UsageError::UnknownFlag(tokens[next].clone()));
            }
            next += 1;
        }
        return Ok(Some((Action::SetSwap { size_token, replace, persist }, next)));
    }
    if begins_with_dashes(word, 1) {
        return Err(UsageError::MisplacedFlag(tokens[from].clone()));
    }
    Err(UsageError::UnknownCommand(tokens[from].clone()))
}

/// Whether a token is one of the two flags of `set`.
pub open spec fn is_known_flag(token: Seq<char>) -> bool {
    token == "--replace"@ || token == "--persist"@
}

/// Whether `flag` stands among the tokens from `from` up to `to`.
pub open spec fn flag_given(tokens: Seq<Seq<char>>, from: int, to: int, flag: Seq<char>) -> bool {
    exists|i: int| from <= i < to && #[trigger] tokens[i] == flag
}

/// The flags of a `set` are taken greedily. Where the reading succeeds,
/// every token it has taken is one of the two flags, the token behind
/// them, if there is one, does not begin with two dashes, and a flag is
/// switched on exactly when it was on before or stands among the tokens
/// taken. Where it fails, it fails on the first token that begins with
/// two dashes and is neither flag.
pub proof fn law_flags_are_taken_greedily(
    tokens: Seq<Seq<char>>,
    from: int,
    replace: bool,
    persist: bool,
)
    requires
        0 <= from <= tokens.len(),
    ensures
        match scan_flags(tokens, from, replace, persist) {
            FlagScan::Flags { next, replace: r, persist: p } => {
                &&& from <= next <= tokens.len()
                &&& forall|i: int| from <= i < next ==> is_known_flag(#[trigger] tokens[i])
                &&& next < tokens.len() ==> !is_flag(tokens[next])
                &&& r == (replace || flag_given(tokens, from, next, "--replace"@))
                &&& p == (persist || flag_given(tokens, from, next, "--persist"@))
            },
            FlagScan::Unknown { flag } => exists|at: int|
                {
                    &&& from <= at < tokens.len()
                    &&& #[trigger] tokens[at] == flag
                    &&& is_flag(flag)
                    &&& !is_known_flag(flag)
                    &&& forall|i: int| from <= i < at ==> is_known_flag(#[trigger] tokens[i])
                },
        },
    decreases tokens.len() - from,
{
    reveal_strlit("--replace");
    reveal_strlit("--persist");
    if from < tokens.len() && is_flag(tokens[from]) && is_known_flag(tokens[from]) {
        let replace_now = replace || tokens[from] == "--replace"@;
        let persist_now = persist || (tokens[from] != "--replace"@ && tokens[from] == "--persist"@);
        law_flags_are_taken_greedily(tokens, from + 1, replace_now, persist_now);
        if let FlagScan::Flags { next, .. } = scan_flags(tokens, from + 1, replace_now, persist_now) {
            assert forall|flag: Seq<char>|
                flag_given(tokens, from, next, flag) == (tokens[from] == flag || flag_given(
                    tokens,
                    from + 1,
                    next,
                    flag,
                )) by {}
            assert("--replace"@ != "--persist"@) by {
                assert("--replace"@[2] == 'r');
            }
        }
    }
}

/// Reading an action takes at least one token and never more than there
/// are: the next action begins behind the one just read.
pub proof fn law_reading_moves_forward(tokens: Seq<Seq<char>>, from: int)
    ensures
        read_action(tokens, from) matches Reading::Next { next, .. } ==> from < next
            <= tokens.len(),
        read_action(tokens, from) is End <==> from < 0 || from >= tokens.len(),
{
    if 0 <= from && from + 1 < tokens.len() {
        law_flags_are_taken_greedily(tokens, from + 2, false, false);
    }
}

} // verus!
