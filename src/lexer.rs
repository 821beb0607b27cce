use vstd::prelude::*;
use vstd::string::StrSliceExecFns;

verus! {

pub open spec fn is_space(c: char) -> bool {
    c == ' ' || c == '\t' || c == '\n' || c == '\r'
}

pub open spec fn is_digit(c: char) -> bool {
    '0' <= c && c <= '9'
}

pub open spec fn is_alpha(c: char) -> bool {
    ('a' <= c && c <= 'z') || ('A' <= c && c <= 'Z')
}

pub open spec fn is_alnum(c: char) -> bool {
    is_alpha(c) || is_digit(c)
}

/// The number that a run of decimal digits denotes.
pub open spec fn digits_value(ds: Seq<char>) -> nat
    decreases ds.len(),
{
    if ds.len() == 0 {
        0
    } else {
        digits_value(ds.drop_last()) * 10 + (ds.last() as nat - '0' as nat) as nat
    }
}

/// The end of the run of whitespace that starts at `pos`.
pub fn skip_space(s: &Vec<char>, pos: usize) -> (r: usize)
    requires
        pos <= s@.len(),
    ensures
        pos <= r <= s@.len(),
        forall|k: int| pos <= k < r ==> is_space(#[trigger] s@[k]),
        r == s@.len() || !is_space(s@[r as int]),
{
    let mut p = pos;
    while p < s.len() && (s[p] == ' ' || s[p] == '\t' || s[p] == '\n' || s[p] == '\r')
        invariant
            pos <= p <= s@.len(),
            forall|k: int| pos <= k < p ==> is_space(#[trigger] s@[k]),
        decreases s@.len() - p,
    {
        p = p + 1;
    }
    p
}

/// The end of the word (a letter, then letters and digits) that starts at
/// `pos`; `pos` itself when no letter stands there.
pub fn scan_word(s: &Vec<char>, pos: usize) -> (r: usize)
    requires
        pos <= s@.len(),
    ensures
        pos <= r <= s@.len(),
        r > pos <==> (pos < s@.len() && is_alpha(s@[pos as int])),
        forall|k: int| pos <= k < r ==> is_alnum(#[trigger] s@[k]),
        r > pos ==> (r == s@.len() || !is_alnum(s@[r as int])),
{
    if pos >= s.len() {
        return pos;
    }
    let c = s[pos];
    if !(('a' <= c && c <= 'z') || ('A' <= c && c <= 'Z')) {
        return pos;
    }
    let mut p = pos + 1;
    while p < s.len() && (('a' <= s[p] && s[p] <= 'z') || ('A' <= s[p] && s[p] <= 'Z') || ('0'
        <= s[p] && s[p] <= '9'))
        invariant
            pos < p <= s@.len(),
            forall|k: int| pos <= k < p ==> is_alnum(#[trigger] s@[k]),
        decreases s@.len() - p,
    {
        p = p + 1;
    }
    p
}

/// The decimal number that starts at `pos` and where it ends; `None` when no
/// digit stands there or the number does not fit in a `u32`.
pub fn scan_number(s: &Vec<char>, pos: usize) -> (r: Option<(u32, usize)>)
    requires
        pos <= s@.len(),
    ensures
        match r {
            Some((v, end)) => {
                &&& pos < end <= s@.len()
                &&& forall|k: int| pos <= k < end ==> is_digit(#[trigger] s@[k])
                &&& end == s@.len() || !is_digit(s@[end as int])
                &&& v as nat == digits_value(s@.subrange(pos as int, end as int))
            },
            None => pos == s@.len() || !is_digit(s@[pos as int]) || exists|q: int|
                pos < q <= s@.len() && (forall|k: int| pos <= k < q ==> is_digit(#[trigger] s@[k]))
                    && #[trigger] digits_value(s@.subrange(pos as int, q)) > u32::MAX,
        },
{
    let mut p = pos;
    let mut v: u64 = 0;
    while p < s.len() && '0' <= s[p] && s[p] <= '9'
        invariant
            pos <= p <= s@.len(),
            forall|k: int| pos <= k < p ==> is_digit(#[trigger] s@[k]),
            v as nat == digits_value(s@.subrange(pos as int, p as int)),
            v <= u32::MAX,
        decreases s@.len() - p,
    {
        assert(s@.subrange(pos as int, p + 1).drop_last() =~= s@.subrange(pos as int, p as int));
        let d = (s[p] as u32 - '0' as u32) as u64;
        let next = v * 10 + d;
        if next > u32::MAX as u64 {
            assert(digits_value(s@.subrange(pos as int, p + 1)) > u32::MAX);
            return None;
        }
        v = next;
        p = p + 1;
    }
    if p == pos {
        return None;
    }
    Some((v as u32, p))
}

/// Whether `s[start..end]` spells `word`.
pub fn spells(s: &Vec<char>, start: usize, end: usize, word: &str) -> (r: bool)
    requires
        start <= end <= s@.len(),
    ensures
        r == (s@.subrange(start as int, end as int) == word@),
{
    let n = word.unicode_len();
    if end - start != n {
        return false;
    }
    let mut i: usize = 0;
    while i < n
        invariant
            i <= n,
            n == word@.len(),
            end - start == n,
            start <= end <= s@.len(),
            forall|k: int| 0 <= k < i ==> s@[start + k] == word@[k],
        decreases n - i,
    {
        if s[start + i] != word.get_char(i) {
            assert(s@.subrange(start as int, end as int)[i as int] != word@[i as int]);
            return false;
        }
        i = i + 1;
    }
    assert(s@.subrange(start as int, end as int) =~= word@);
    true
}

/// The characters `s[start..end]` as a string.
///
/// Relies on `String`'s `FromIterator<char>`: the string collected from a run
/// of characters holds exactly those characters, in order.
#[verifier::external_body]
pub(crate) fn text_of(s: &Vec<char>, start: usize, end: usize) -> (r: String)
    requires
        start <= end <= s@.len(),
    ensures
        r@ == s@.subrange(start as int, end as int),
{
    s[start..end].iter().collect()
}

} // verus!
