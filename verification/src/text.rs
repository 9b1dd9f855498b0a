//! Character-level scanning over type-expression strings: locating the first
//! angle-bracket delimiter, the matching closing bracket, the first
//! bracket-level comma, and whitespace trimming.

use vstd::prelude::*;
use vstd::string::StrSliceExecFns;

verus! {

/// Whitespace that a type expression may carry around its tokens.
pub open spec fn is_space_char(c: char) -> bool {
    c == ' ' || c == '\t' || c == '\n' || c == '\r'
}

/// The two delimiter characters of the type-expression grammar.
pub open spec fn is_delim_char(c: char) -> bool {
    c == '<' || c == '>'
}

/// Index of the first `<` or `>` in `s`, or `s.len()` if none occurs.
pub open spec fn delim_pos(s: Seq<char>) -> int
    decreases s.len(),
{
    if s.len() == 0 {
        0
    } else if is_delim_char(s[0]) {
        0
    } else {
        1 + delim_pos(s.drop_first())
    }
}

pub proof fn lemma_delim_pos(s: Seq<char>)
    ensures
        0 <= delim_pos(s) <= s.len(),
        forall|j: int| 0 <= j < delim_pos(s) ==> !is_delim_char(s[j]),
        delim_pos(s) < s.len() ==> is_delim_char(s[delim_pos(s)]),
    decreases s.len(),
{
    if s.len() == 0 {
    } else if is_delim_char(s[0]) {
    } else {
        lemma_delim_pos(s.drop_first());
        assert forall|j: int| 0 <= j < delim_pos(s) implies !is_delim_char(s[j]) by {
            if j > 0 {
                assert(s.drop_first()[j - 1] == s[j]);
            }
        }
        if delim_pos(s) < s.len() {
            assert(s.drop_first()[delim_pos(s) - 1] == s[delim_pos(s)]);
        }
    }
}

/// Scanning `s` at bracket depth `d`: the index of the `>` that brings the
/// depth down to zero, or `s.len()` if no such `>` occurs.
pub open spec fn close_pos(s: Seq<char>, d: int) -> int
    decreases s.len(),
{
    if s.len() == 0 {
        0
    } else if s[0] == '>' && d == 1 {
        0
    } else {
        let d2 = if s[0] == '<' {
            d + 1
        } else if s[0] == '>' {
            d - 1
        } else {
            d
        };
        1 + close_pos(s.drop_first(), d2)
    }
}

pub proof fn lemma_close_pos_bound(s: Seq<char>, d: int)
    ensures
        0 <= close_pos(s, d) <= s.len(),
    decreases s.len(),
{
    if s.len() == 0 {
    } else if s[0] == '>' && d == 1 {
    } else {
        let d2 = if s[0] == '<' {
            d + 1
        } else if s[0] == '>' {
            d - 1
        } else {
            d
        };
        lemma_close_pos_bound(s.drop_first(), d2);
    }
}

/// Scanning `s` at bracket depth `d`: the index of the first `,` that occurs
/// at depth zero, or `s.len()` if no such comma occurs.
pub open spec fn comma_pos(s: Seq<char>, d: int) -> int
    decreases s.len(),
{
    if s.len() == 0 {
        0
    } else if s[0] == ',' && d == 0 {
        0
    } else {
        let d2 = if s[0] == '<' {
            d + 1
        } else if s[0] == '>' {
            d - 1
        } else {
            d
        };
        1 + comma_pos(s.drop_first(), d2)
    }
}

pub proof fn lemma_comma_pos_bound(s: Seq<char>, d: int)
    ensures
        0 <= comma_pos(s, d) <= s.len(),
    decreases s.len(),
{
    if s.len() == 0 {
    } else if s[0] == ',' && d == 0 {
    } else {
        let d2 = if s[0] == '<' {
            d + 1
        } else if s[0] == '>' {
            d - 1
        } else {
            d
        };
        lemma_comma_pos_bound(s.drop_first(), d2);
    }
}

/// `s` with its leading whitespace removed.
pub open spec fn trim_front(s: Seq<char>) -> Seq<char>
    decreases s.len(),
{
    if s.len() > 0 && is_space_char(s[0]) {
        trim_front(s.drop_first())
    } else {
        s
    }
}

/// `s` with its trailing whitespace removed.
pub open spec fn trim_back(s: Seq<char>) -> Seq<char>
    decreases s.len(),
{
    if s.len() > 0 && is_space_char(s.last()) {
        trim_back(s.drop_last())
    } else {
        s
    }
}

/// `s` with whitespace removed from both ends.
pub open spec fn trim_seq(s: Seq<char>) -> Seq<char> {
    trim_back(trim_front(s))
}

/// A sequence with no whitespace at either end is its own trimmed form.
pub proof fn lemma_trim_seq_plain(s: Seq<char>)
    requires
        s.len() > 0 ==> !is_space_char(s[0]),
        s.len() > 0 ==> !is_space_char(s.last()),
    ensures
        trim_seq(s) == s,
{
}

fn is_space(c: char) -> (r: bool)
    ensures
        r == is_space_char(c),
{
    c == ' ' || c == '\t' || c == '\n' || c == '\r'
}

/// Whether two string slices hold the same characters.
pub fn str_eq(a: &str, b: &str) -> (r: bool)
    ensures
        r == (a@ == b@),
{
    let an = a.unicode_len();
    let bn = b.unicode_len();
    if an != bn {
        return false;
    }
    let mut i: usize = 0;
    while i < an
        invariant
            i <= an,
            an == a@.len(),
            bn == b@.len(),
            an == bn,
            forall|j: int| 0 <= j < i ==> a@[j] == b@[j],
        decreases an - i,
    {
        if a.get_char(i) != b.get_char(i) {
            return false;
        }
        i = i + 1;
    }
    proof {
        assert(a@ =~= b@);
    }
    true
}

/// Index of the first `<` or `>` in `s`, or its length if none occurs.
pub fn find_delim(s: &str) -> (r: usize)
    ensures
        r == delim_pos(s@),
        r <= s@.len(),
{
    let n = s.unicode_len();
    let mut i: usize = 0;
    while i < n
        invariant
            i <= n,
            n == s@.len(),
            forall|j: int| 0 <= j < i ==> !is_delim_char(s@[j]),
        decreases n - i,
    {
        let c = s.get_char(i);
        if c == '<' || c == '>' {
            proof {
                lemma_delim_pos_is(s@, i as int);
            }
            return i;
        }
        i = i + 1;
    }
    proof {
        lemma_delim_pos_is(s@, n as int);
    }
    n
}

proof fn lemma_delim_pos_is(s: Seq<char>, i: int)
    requires
        0 <= i <= s.len(),
        forall|j: int| 0 <= j < i ==> !is_delim_char(s[j]),
        i < s.len() ==> is_delim_char(s[i]),
    ensures
        delim_pos(s) == i,
    decreases s.len(),
{
    if s.len() == 0 {
    } else if is_delim_char(s[0]) {
    } else {
        assert forall|j: int| 0 <= j < i - 1 implies !is_delim_char(s.drop_first()[j]) by {
            assert(s.drop_first()[j] == s[j + 1]);
        }
        if i - 1 < s.drop_first().len() {
            assert(s.drop_first()[i - 1] == s[i]);
        }
        lemma_delim_pos_is(s.drop_first(), i - 1);
    }
}

/// Position in `s` of the `>` that closes an already-open bracket (depth one
/// at entry), or the length of `s` if the bracket is never closed.
pub fn find_close(s: &str) -> (r: usize)
    ensures
        r == close_pos(s@, 1),
        r <= s@.len(),
{
    let n = s.unicode_len();
    let mut i: usize = 0;
    let mut d: u128 = 1;
    proof {
        assert(s@.subrange(0, n as int) =~= s@);
    }
    while i < n
        invariant
            i <= n,
            n == s@.len(),
            1 <= d,
            d <= 1 + i as u128,
            close_pos(s@, 1) == i + close_pos(s@.subrange(i as int, n as int), d as int),
        decreases n - i,
    {
        let c = s.get_char(i);
        proof {
            assert(s@.subrange(i as int, n as int).drop_first() =~= s@.subrange(
                i as int + 1,
                n as int,
            ));
            assert(s@.subrange(i as int, n as int)[0] == s@[i as int]);
        }
        if c == '>' {
            if d == 1 {
                return i;
            }
            d = d - 1;
        } else if c == '<' {
            d = d + 1;
        }
        i = i + 1;
    }
    proof {
        assert(s@.subrange(n as int, n as int) =~= Seq::<char>::empty());
    }
    n
}

/// Position in `s` of the first comma outside any bracket, or the length of
/// `s` if there is none.
pub fn find_comma(s: &str) -> (r: usize)
    ensures
        r == comma_pos(s@, 0),
        r <= s@.len(),
{
    let n = s.unicode_len();
    let mut i: usize = 0;
    let mut d: i128 = 0;
    proof {
        assert(s@.subrange(0, n as int) =~= s@);
    }
    while i < n
        invariant
            i <= n,
            n == s@.len(),
            -(i as i128) <= d <= i as i128,
            comma_pos(s@, 0) == i + comma_pos(s@.subrange(i as int, n as int), d as int),
        decreases n - i,
    {
        let c = s.get_char(i);
        proof {
            assert(s@.subrange(i as int, n as int).drop_first() =~= s@.subrange(
                i as int + 1,
                n as int,
            ));
            assert(s@.subrange(i as int, n as int)[0] == s@[i as int]);
        }
        if c == ',' && d == 0 {
            return i;
        }
        if c == '<' {
            d = d + 1;
        } else if c == '>' {
            d = d - 1;
        }
        i = i + 1;
    }
    proof {
        assert(s@.subrange(n as int, n as int) =~= Seq::<char>::empty());
    }
    n
}

/// A copy of `s` with whitespace removed from both ends.
pub fn trim_str(s: &str) -> (r: String)
    ensures
        r@ == trim_seq(s@),
{
    let n = s.unicode_len();
    let mut i: usize = 0;
    proof {
        assert(s@.subrange(0, n as int) =~= s@);
    }
    while i < n
        invariant
            i <= n,
            n == s@.len(),
            trim_front(s@) == trim_front(s@.subrange(i as int, n as int)),
        ensures
            i <= n,
            trim_front(s@) == s@.subrange(i as int, n as int),
        decreases n - i,
    {
        proof {
            assert(s@.subrange(i as int, n as int).drop_first() =~= s@.subrange(
                i as int + 1,
                n as int,
            ));
            assert(s@.subrange(i as int, n as int)[0] == s@[i as int]);
        }
        if !is_space(s.get_char(i)) {
            break;
        }
        i = i + 1;
    }
    let mut j: usize = n;
    while j > i
        invariant
            i <= j <= n,
            n == s@.len(),
            trim_front(s@) == s@.subrange(i as int, n as int),
            trim_back(s@.subrange(i as int, n as int)) == trim_back(
                s@.subrange(i as int, j as int),
            ),
        ensures
            i <= j <= n,
            trim_back(s@.subrange(i as int, n as int)) == s@.subrange(i as int, j as int),
        decreases j - i,
    {
        proof {
            assert(s@.subrange(i as int, j as int).drop_last() =~= s@.subrange(
                i as int,
                j as int - 1,
            ));
            assert(s@.subrange(i as int, j as int).last() == s@[j as int - 1]);
        }
        if !is_space(s.get_char(j - 1)) {
            break;
        }
        j = j - 1;
    }
    s.substring_char(i, j).to_owned()
}

} // verus!
