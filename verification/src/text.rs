use vstd::prelude::*;
use vstd::string::StrSliceExecFns;
use vstd::string::StringExecFns;

verus! {

/// Relies on String::push, which appends exactly one character at the
/// end of the string.
#[verifier::external_body]
pub(crate) fn push_char(s: &mut String, c: char)
    ensures
        final(s)@ == old(s)@.push(c),
{
    s.push(c);
}

/// A copy of `line` with `c` inserted before column `x` (appended when
/// `x` is the length of the line).
pub(crate) fn line_insert(line: &str, x: usize, c: char) -> (r: String)
    requires
        x <= line@.len(),
    ensures
        r@ == line@.subrange(0, x as int) + seq![c] + line@.subrange(
            x as int,
            line@.len() as int,
        ),
{
    let n = line.unicode_len();
    let mut left = String::from_str(line.substring_char(0, x));
    push_char(&mut left, c);
    let left = left.concat(line.substring_char(x, n));
    proof {
        assert(left@ =~= line@.subrange(0, x as int) + seq![c] + line@.subrange(
            x as int,
            line@.len() as int,
        ));
    }
    left
}

/// A copy of `line` with the character at column `x - 1` removed.
pub(crate) fn line_remove(line: &str, x: usize) -> (r: String)
    requires
        1 <= x <= line@.len(),
    ensures
        r@ == line@.subrange(0, x - 1) + line@.subrange(x as int, line@.len() as int),
{
    let n = line.unicode_len();
    String::from_str(line.substring_char(0, x - 1)).concat(line.substring_char(x, n))
}

/// The two halves of `line` split at column `x`.
pub(crate) fn line_split(line: &str, x: usize) -> (r: (String, String))
    requires
        x <= line@.len(),
    ensures
        r.0@ == line@.subrange(0, x as int),
        r.1@ == line@.subrange(x as int, line@.len() as int),
{
    let n = line.unicode_len();
    (
        String::from_str(line.substring_char(0, x)),
        String::from_str(line.substring_char(x, n)),
    )
}

/// `a` and `b` joined into one line.
pub(crate) fn line_concat(a: &str, b: &str) -> (r: String)
    ensures
        r@ == a@ + b@,
{
    String::from_str(a).concat(b)
}

/// The index of the first line break in `s`, or its length when there is
/// none.
pub open spec fn first_nl(s: Seq<char>) -> nat
    decreases s.len(),
{
    if s.len() == 0 {
        0
    } else if s[0] == '\n' {
        0
    } else {
        (1 + first_nl(s.drop_first())) as nat
    }
}

pub proof fn lemma_first_nl(s: Seq<char>)
    ensures
        first_nl(s) <= s.len(),
        first_nl(s) < s.len() ==> s[first_nl(s) as int] == '\n',
        forall|j: int| 0 <= j < first_nl(s) ==> s[j] != '\n',
    decreases s.len(),
{
    if s.len() == 0 {
    } else if s[0] == '\n' {
    } else {
        lemma_first_nl(s.drop_first());
        assert forall|j: int| 0 <= j < first_nl(s) implies s[j] != '\n' by {
            if j > 0 {
                assert(s[j] == s.drop_first()[j - 1]);
            }
        }
    }
}

pub proof fn lemma_first_nl_at(s: Seq<char>, i: int)
    requires
        0 <= i <= s.len(),
        forall|j: int| 0 <= j < i ==> s[j] != '\n',
        i < s.len() ==> s[i] == '\n',
    ensures
        first_nl(s) == i,
    decreases s.len(),
{
    if i == 0 {
    } else {
        assert(s[0] != '\n');
        assert forall|j: int| 0 <= j < i - 1 implies s.drop_first()[j] != '\n' by {
            assert(s.drop_first()[j] == s[j + 1]);
        }
        assert(i - 1 < s.drop_first().len() ==> s.drop_first()[i - 1] == '\n');
        lemma_first_nl_at(s.drop_first(), i - 1);
    }
}

/// The lines of a text, with `'\n'` read as a line terminator: the text
/// behind a trailing terminator contributes no extra line, and a text
/// without a trailing terminator keeps its last, unterminated line.
pub open spec fn split_lines(s: Seq<char>) -> Seq<Seq<char>>
    decreases s.len(),
{
    if s.len() == 0 {
        Seq::empty()
    } else {
        let i = first_nl(s) as int;
        if i >= s.len() {
            seq![s]
        } else {
            seq![s.subrange(0, i)] + split_lines(s.subrange(i + 1, s.len() as int))
        }
    }
}

/// What a freshly opened buffer holds for a file of content `s`: its
/// lines, or a single empty line when the file is empty.
pub open spec fn load_lines(s: Seq<char>) -> Seq<Seq<char>> {
    if split_lines(s).len() == 0 {
        seq![Seq::<char>::empty()]
    } else {
        split_lines(s)
    }
}

/// The file content written for the lines `ls`: each line followed by a
/// line terminator, in order.
pub open spec fn join_lines(ls: Seq<Seq<char>>) -> Seq<char>
    decreases ls.len(),
{
    if ls.len() == 0 {
        Seq::empty()
    } else {
        ls[0] + seq!['\n'] + join_lines(ls.drop_first())
    }
}

pub proof fn lemma_join_lines_push(ls: Seq<Seq<char>>, l: Seq<char>)
    ensures
        join_lines(ls.push(l)) == join_lines(ls) + l + seq!['\n'],
    decreases ls.len(),
{
    if ls.len() == 0 {
        assert(ls.push(l).drop_first() =~= Seq::<Seq<char>>::empty());
        assert(ls.push(l)[0] == l);
        assert(join_lines(ls.push(l)) == l + seq!['\n'] + join_lines(
            Seq::<Seq<char>>::empty(),
        ));
        assert(join_lines(ls.push(l)) =~= join_lines(ls) + l + seq!['\n']);
    } else {
        lemma_join_lines_push(ls.drop_first(), l);
        assert(ls.push(l).drop_first() =~= ls.drop_first().push(l));
        assert(ls.push(l)[0] == ls[0]);
        assert(join_lines(ls.push(l)) == ls[0] + seq!['\n'] + join_lines(ls.drop_first().push(l)));
        assert(join_lines(ls.push(l)) =~= join_lines(ls) + l + seq!['\n']);
    }
}

pub proof fn lemma_first_nl_of_join(l: Seq<char>, rest: Seq<char>)
    requires
        !l.contains('\n'),
    ensures
        first_nl(l + seq!['\n'] + rest) == l.len(),
{
    let s = l + seq!['\n'] + rest;
    assert forall|j: int| 0 <= j < l.len() implies s[j] != '\n' by {
        assert(s[j] == l[j]);
        assert(!(exists|k: int| 0 <= k < l.len() && l[k] == '\n'));
    }
    assert(s[l.len() as int] == '\n');
    lemma_first_nl_at(s, l.len() as int);
}

pub proof fn lemma_split_join(ls: Seq<Seq<char>>)
    requires
        forall|i: int| 0 <= i < ls.len() ==> !(#[trigger] ls[i]).contains('\n'),
    ensures
        split_lines(join_lines(ls)) == ls,
    decreases ls.len(),
{
    if ls.len() == 0 {
        assert(split_lines(join_lines(ls)) =~= ls);
    } else {
        let l = ls[0];
        let rest = join_lines(ls.drop_first());
        let s = join_lines(ls);
        assert(s == l + seq!['\n'] + rest);
        lemma_first_nl_of_join(l, rest);
        assert(s.len() == l.len() + 1 + rest.len());
        assert(s.subrange(0, l.len() as int) =~= l);
        assert(s.subrange(l.len() + 1 as int, s.len() as int) =~= rest);
        lemma_split_join(ls.drop_first());
        assert(split_lines(s) =~= ls);
    }
}

/// Law: opening a file whose content is the written form of any lines
/// (none holding a line terminator) yields exactly those lines back, and
/// saving them right away writes the very same content again.
pub proof fn lemma_load_save_round_trip(ls: Seq<Seq<char>>)
    requires
        ls.len() >= 1,
        forall|i: int| 0 <= i < ls.len() ==> !(#[trigger] ls[i]).contains('\n'),
    ensures
        load_lines(join_lines(ls)) == ls,
        join_lines(load_lines(join_lines(ls))) == join_lines(ls),
{
    lemma_split_join(ls);
}

/// The position of the first line break, or the length when there is
/// none.
pub(crate) fn find_newline(s: &str) -> (i: usize)
    ensures
        i == first_nl(s@),
{
    let n = s.unicode_len();
    let mut i: usize = 0;
    while i < n
        invariant
            i <= n,
            n == s@.len(),
            forall|j: int| 0 <= j < i ==> s@[j] != '\n',
        decreases n - i,
    {
        if s.get_char(i) == '\n' {
            proof {
                lemma_first_nl_at(s@, i as int);
            }
            return i;
        }
        i += 1;
    }
    proof {
        lemma_first_nl_at(s@, n as int);
    }
    i
}

/// The lines of a text, split at line terminators as `split_lines` says.
pub fn split_content(text: &str) -> (r: Vec<String>)
    ensures
        r.deep_view() == split_lines(text@),
{
    let mut result: Vec<String> = Vec::new();
    let mut rest: &str = text;
    loop
        invariant
            result.deep_view() + split_lines(rest@) == split_lines(text@),
        ensures
            rest@.len() == 0,
        decreases rest@.len(),
    {
        let ghost rest0 = rest@;
        let ghost acc0 = result.deep_view();
        let n = rest.unicode_len();
        if n == 0 {
            break ;
        }
        proof {
            lemma_first_nl(rest@);
        }
        let i = find_newline(rest);
        let line = String::from_str(rest.substring_char(0, i));
        result.push(line);
        if i == n {
            rest = rest.substring_char(n, n);
        } else {
            rest = rest.substring_char(i + 1, n);
        }
        proof {
            assert(result.deep_view() =~= acc0 + seq![rest0.subrange(0, first_nl(rest0) as int)]);
            if first_nl(rest0) == rest0.len() {
                assert(rest0.subrange(0, first_nl(rest0) as int) =~= rest0);
                assert(split_lines(rest0) =~= seq![rest0]);
                assert(rest@ =~= Seq::<char>::empty());
                assert(result.deep_view() + split_lines(rest@) =~= acc0 + split_lines(rest0));
            } else {
                assert(split_lines(rest0) =~= seq![rest0.subrange(0, first_nl(rest0) as int)]
                    + split_lines(rest@));
                assert(result.deep_view() + split_lines(rest@) =~= acc0 + split_lines(rest0));
            }
        }
    }
    proof {
        assert(result.deep_view() =~= result.deep_view() + split_lines(rest@));
    }
    result
}

} // verus!
