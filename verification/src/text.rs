//! Small verified text utilities: whitespace trimming, string equality,
//! joining and centering, used by the flattener and the renderer.

use vstd::prelude::*;
use vstd::string::StrSliceExecFns;
use vstd::string::StringExecFns;

verus! {

/// The whitespace characters of the markup syntax: space, tab,
/// carriage return and line feed.
pub open spec fn is_ws(c: char) -> bool {
    c == ' ' || c == '\t' || c == '\n' || c == '\r'
}

/// Every character of `s` is whitespace.
pub open spec fn all_ws(s: Seq<char>) -> bool {
    forall|i: int| 0 <= i < s.len() ==> is_ws(#[trigger] s[i])
}

/// `s` without its leading whitespace.
pub open spec fn trim_front(s: Seq<char>) -> Seq<char>
    decreases s.len(),
{
    if s.len() > 0 && is_ws(s[0]) {
        trim_front(s.drop_first())
    } else {
        s
    }
}

/// `s` without its trailing whitespace.
pub open spec fn trim_back(s: Seq<char>) -> Seq<char>
    decreases s.len(),
{
    if s.len() > 0 && is_ws(s.last()) {
        trim_back(s.drop_last())
    } else {
        s
    }
}

/// `s` without leading and trailing whitespace.
pub open spec fn trim_spec(s: Seq<char>) -> Seq<char> {
    trim_back(trim_front(s))
}

/// If the first `i` characters are whitespace and the character at `i`
/// (if any) is not, trimming the front drops exactly those `i` characters.
proof fn lemma_trim_front_skip(s: Seq<char>, i: int)
    requires
        0 <= i <= s.len(),
        forall|k: int| 0 <= k < i ==> is_ws(#[trigger] s[k]),
        i == s.len() || !is_ws(s[i]),
    ensures
        trim_front(s) == s.skip(i),
    decreases i,
{
    if i == 0 {
        assert(s.skip(0) =~= s);
    } else {
        lemma_trim_front_skip(s.drop_first(), i - 1);
        assert(s.drop_first().skip(i - 1) =~= s.skip(i));
    }
}

/// If every character from `j` on is whitespace and the character at
/// `j - 1` (if any) is not, trimming the back keeps exactly the first `j`.
proof fn lemma_trim_back_take(s: Seq<char>, j: int)
    requires
        0 <= j <= s.len(),
        forall|k: int| j <= k < s.len() ==> is_ws(#[trigger] s[k]),
        j == 0 || !is_ws(s[j - 1]),
    ensures
        trim_back(s) == s.take(j),
    decreases s.len() - j,
{
    if j == s.len() {
        assert(s.take(j) =~= s);
    } else {
        lemma_trim_back_take(s.drop_last(), j);
        assert(s.drop_last().take(j) =~= s.take(j));
    }
}

/// A whitespace-only text trims to the empty text.
pub proof fn lemma_trim_all_ws_empty(s: Seq<char>)
    requires
        all_ws(s),
    ensures
        trim_spec(s).len() == 0,
{
    lemma_trim_front_skip(s, s.len() as int);
    assert(s.skip(s.len() as int) =~= Seq::<char>::empty());
}

/// Returns `s` with leading and trailing whitespace removed.
pub fn trim_ws(s: &str) -> (r: String)
    ensures
        r@ == trim_spec(s@),
{
    let n = s.unicode_len();
    let mut i: usize = 0;
    while i < n && is_ws_char(s.get_char(i))
        invariant
            0 <= i <= n,
            n == s@.len(),
            forall|k: int| 0 <= k < i ==> is_ws(#[trigger] s@[k]),
        decreases n - i,
    {
        i = i + 1;
    }
    proof {
        lemma_trim_front_skip(s@, i as int);
    }
    if i == n {
        proof {
            assert(s@.skip(i as int) =~= Seq::<char>::empty());
        }
        return String::new();
    }
    let mut j: usize = n;
    while j > i && is_ws_char(s.get_char(j - 1))
        invariant
            i <= j <= n,
            i < n,
            n == s@.len(),
            forall|k: int| j <= k < n ==> is_ws(#[trigger] s@[k]),
        decreases j,
    {
        j = j - 1;
    }
    proof {
        let tail = s@.skip(i as int);
        lemma_trim_back_take(tail, j - i);
        assert(tail.take(j - i) =~= s@.subrange(i as int, j as int));
    }
    let piece = s.substring_char(i, j);
    String::from_str(piece)
}

/// Whether `c` is one of the markup whitespace characters.
pub fn is_ws_char(c: char) -> (r: bool)
    ensures
        r == is_ws(c),
{
    c == ' ' || c == '\t' || c == '\n' || c == '\r'
}

/// Character-for-character equality of two text slices.
pub fn str_eq(a: &str, b: &str) -> (r: bool)
    ensures
        r == (a@ == b@),
{
    let sa = a.to_owned();
    let sb = b.to_owned();
    sa == sb
}

/// The elements of `vs` joined with `"; "` between neighbours.
pub open spec fn join_spec(vs: Seq<Seq<char>>) -> Seq<char>
    decreases vs.len(),
{
    if vs.len() == 0 {
        Seq::empty()
    } else if vs.len() == 1 {
        vs[0]
    } else {
        join_spec(vs.drop_last()) + "; "@ + vs.last()
    }
}

/// Joins the strings of `vs` with `"; "` between neighbours.
pub fn join_semi(vs: &Vec<String>) -> (r: String)
    ensures
        r@ == join_spec(vs.deep_view()),
{
    let mut acc = String::new();
    let mut i: usize = 0;
    while i < vs.len()
        invariant
            0 <= i <= vs@.len(),
            vs.deep_view().len() == vs@.len(),
            forall|k: int| 0 <= k < vs@.len() ==> vs.deep_view()[k] == vs@[k]@,
            acc@ == join_spec(vs.deep_view().take(i as int)),
        decreases vs@.len() - i,
    {
        if i > 0 {
            acc.append("; ");
        }
        acc.append(vs[i].as_str());
        proof {
            let dv = vs.deep_view();
            assert(dv.take(i + 1).drop_last() =~= dv.take(i as int));
            assert(dv.take(i + 1).last() == dv[i as int]);
        }
        i = i + 1;
    }
    proof {
        assert(vs.deep_view().take(vs@.len() as int) =~= vs.deep_view());
    }
    acc
}

/// `n` space characters.
pub open spec fn spaces(n: nat) -> Seq<char>
    decreases n,
{
    if n == 0 {
        Seq::empty()
    } else {
        spaces((n - 1) as nat).push(' ')
    }
}

/// `t` centered to `width` characters: unchanged when already at least
/// that wide, otherwise padded with spaces, the extra space on the right.
pub open spec fn center_spec(t: Seq<char>, width: nat) -> Seq<char> {
    if t.len() >= width {
        t
    } else {
        let left = ((width - t.len()) / 2) as nat;
        let right = (width - t.len() - left) as nat;
        spaces(left) + t + spaces(right)
    }
}

/// Appends `n` spaces to `acc`.
fn push_spaces(acc: &mut String, n: usize)
    ensures
        final(acc)@ == old(acc)@ + spaces(n as nat),
{
    let mut k: usize = 0;
    while k < n
        invariant
            0 <= k <= n,
            acc@ == old(acc)@ + spaces(k as nat),
        decreases n - k,
    {
        acc.append(" ");
        proof {
            reveal_strlit(" ");
            assert(old(acc)@ + spaces(k as nat) + " "@ =~= old(acc)@ + spaces((k + 1) as nat));
        }
        k = k + 1;
    }
}

/// Returns `t` centered to `width` characters, space-padded.
pub fn center(t: &str, width: usize) -> (r: String)
    ensures
        r@ == center_spec(t@, width as nat),
{
    let n = t.unicode_len();
    if n >= width {
        return String::from_str(t);
    }
    let left = (width - n) / 2;
    let right = width - n - left;
    let mut acc = String::new();
    push_spaces(&mut acc, left);
    acc.append(t);
    push_spaces(&mut acc, right);
    proof {
        assert(acc@ =~= center_spec(t@, width as nat));
    }
    acc
}

} // verus!
