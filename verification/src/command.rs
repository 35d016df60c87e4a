use vstd::prelude::*;
use vstd::string::StrSliceExecFns;
use vstd::string::StringExecFns;

verus! {

/// What a line typed at the colon prompt asks for.
#[derive(Clone, Copy, PartialEq, Eq, Structural, Debug)]
pub enum CommandAction {
    /// `w`: persist the buffer.
    Write,
    /// `q`: terminate at once, without saving.
    Quit,
    /// `wq`: persist, then terminate at once.
    WriteQuit,
    /// Anything else: report it and resume editing.
    Unknown,
}

/// The whitespace that trimming a command line removes.
pub open spec fn is_blank(c: char) -> bool {
    c == ' ' || c == '\t' || c == '\r' || c == '\n'
}

pub open spec fn trim_front(s: Seq<char>) -> Seq<char>
    decreases s.len(),
{
    if s.len() > 0 && is_blank(s[0]) {
        trim_front(s.drop_first())
    } else {
        s
    }
}

pub open spec fn trim_back(s: Seq<char>) -> Seq<char>
    decreases s.len(),
{
    if s.len() > 0 && is_blank(s.last()) {
        trim_back(s.drop_last())
    } else {
        s
    }
}

/// `s` without leading and trailing whitespace.
pub open spec fn trimmed(s: Seq<char>) -> Seq<char> {
    trim_back(trim_front(s))
}

proof fn lemma_trim_front_at(s: Seq<char>, a: int)
    requires
        0 <= a <= s.len(),
        forall|j: int| 0 <= j < a ==> is_blank(s[j]),
        a < s.len() ==> !is_blank(s[a]),
    ensures
        trim_front(s) == s.subrange(a, s.len() as int),
    decreases a,
{
    if a == 0 {
        assert(trim_front(s) =~= s.subrange(0, s.len() as int));
    } else {
        assert(is_blank(s[0]));
        let t = s.drop_first();
        assert forall|j: int| 0 <= j < a - 1 implies is_blank(t[j]) by {
            assert(t[j] == s[j + 1]);
        }
        lemma_trim_front_at(t, a - 1);
        assert(t.subrange(a - 1, t.len() as int) =~= s.subrange(a, s.len() as int));
    }
}

proof fn lemma_trim_back_at(s: Seq<char>, b: int)
    requires
        0 <= b <= s.len(),
        forall|j: int| b <= j < s.len() ==> is_blank(s[j]),
        b > 0 ==> !is_blank(s[b - 1]),
    ensures
        trim_back(s) == s.take(b),
    decreases s.len(),
{
    if s.len() > b {
        assert(is_blank(s.last()));
        lemma_trim_back_at(s.drop_last(), b);
        assert(s.drop_last().take(b) =~= s.take(b));
    } else {
        assert(trim_back(s) =~= s.take(b));
    }
}

fn is_blank_char(c: char) -> (r: bool)
    ensures
        r == is_blank(c),
{
    c == ' ' || c == '\t' || c == '\r' || c == '\n'
}

/// A copy of `s` without leading and trailing whitespace.
pub fn trim_copy(s: &str) -> (r: String)
    ensures
        r@ == trimmed(s@),
{
    let n = s.unicode_len();
    let mut a: usize = 0;
    while a < n && is_blank_char(s.get_char(a))
        invariant
            a <= n,
            n == s@.len(),
            forall|j: int| 0 <= j < a ==> is_blank(s@[j]),
        decreases n - a,
    {
        a += 1;
    }
    let mut b: usize = n;
    while b > a && is_blank_char(s.get_char(b - 1))
        invariant
            a <= b <= n,
            n == s@.len(),
            forall|j: int| b <= j < n ==> is_blank(s@[j]),
        decreases b,
    {
        b -= 1;
    }
    proof {
        lemma_trim_front_at(s@, a as int);
        let t = s@.subrange(a as int, n as int);
        assert forall|j: int| b - a <= j < t.len() implies is_blank(t[j]) by {
            assert(t[j] == s@[j + a]);
        }
        if b > a {
            assert(t[b - a - 1] == s@[b - 1]);
        }
        lemma_trim_back_at(t, b - a);
        assert(t.take(b - a) =~= s@.subrange(a as int, b as int));
    }
    String::from_str(s.substring_char(a, b))
}

/// The action a trimmed command line stands for.
pub open spec fn parse_command_spec(s: Seq<char>) -> CommandAction {
    let t = trimmed(s);
    if t == "w"@ {
        CommandAction::Write
    } else if t == "q"@ {
        CommandAction::Quit
    } else if t == "wq"@ {
        CommandAction::WriteQuit
    } else {
        CommandAction::Unknown
    }
}

/// Trim one line read at the colon prompt and decide what it asks for.
pub fn parse_command(input: &str) -> (a: CommandAction)
    ensures
        a == parse_command_spec(input@),
{
    let t = trim_copy(input);
    if t == String::from_str("w") {
        CommandAction::Write
    } else if t == String::from_str("q") {
        CommandAction::Quit
    } else if t == String::from_str("wq") {
        CommandAction::WriteQuit
    } else {
        CommandAction::Unknown
    }
}

/// Whether a name typed at the save prompt may be saved to: an empty
/// name (after trimming) aborts the save.
pub fn filename_is_valid(name: &str) -> (r: bool)
    ensures
        r == (trimmed(name@).len() > 0),
{
    let t = trim_copy(name);
    t.as_str().unicode_len() > 0
}

/// The report printed for a command line nothing is bound to.
pub fn unknown_command_message(input: &str) -> (r: String)
    ensures
        r@ == "Unsupported or unknown command: "@ + trimmed(input@),
{
    String::from_str("Unsupported or unknown command: ").concat(trim_copy(input).as_str())
}

} // verus!
