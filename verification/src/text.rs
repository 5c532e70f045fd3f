//! Plain string helpers, specified over sequences of characters.

use vstd::prelude::*;

verus! {

/// Whether `s` ends with a `/`.
pub open spec fn ends_with_slash(s: Seq<char>) -> bool {
    s.len() > 0 && s.last() == '/'
}

/// `s` without its last character when that character is a `/`, else `s`.
/// At most one character goes, whatever is left.
pub open spec fn strip_trailing_slash(s: Seq<char>) -> Seq<char> {
    if ends_with_slash(s) {
        s.drop_last()
    } else {
        s
    }
}

/// Whether `s` ends with `//`.
pub open spec fn ends_with_two_slashes(s: Seq<char>) -> bool {
    s.len() > 1 && s[s.len() - 1] == '/' && s[s.len() - 2] == '/'
}

/// Stripping leaves a trailing `/` behind exactly when there were two, and
/// only then does stripping again take more away.
pub proof fn lemma_strip_once(s: Seq<char>)
    ensures
        ends_with_slash(strip_trailing_slash(s)) <==> ends_with_two_slashes(s),
        strip_trailing_slash(strip_trailing_slash(s)) == strip_trailing_slash(s)
            <==> !ends_with_two_slashes(s),
{
    let once = strip_trailing_slash(s);
    if ends_with_slash(once) {
        assert(strip_trailing_slash(once).len() < once.len());
    }
}

/// Drops one trailing `/` from `s`, if there is one.
pub fn without_trailing_slash<'a>(s: &'a str) -> (r: &'a str)
    ensures
        r@ == strip_trailing_slash(s@),
{
    let n: usize = s.unicode_len();
    if n > 0 && s.get_char(n - 1) == '/' {
        s.substring_char(0, n - 1)
    } else {
        s
    }
}

/// Whether `s` begins with `prefix`, character for character.
pub fn starts_with(s: &str, prefix: &str) -> (b: bool)
    ensures
        b == prefix@.is_prefix_of(s@),
{
    let n: usize = prefix.unicode_len();
    if s.unicode_len() < n {
        return false;
    }
    let mut i: usize = 0;
    while i < n
        invariant
            n == prefix@.len(),
            n <= s@.len(),
            i <= n,
            forall|j: int| 0 <= j < i ==> s@[j] == prefix@[j],
        decreases n - i,
    {
        if s.get_char(i) != prefix.get_char(i) {
            assert(s@.subrange(0, n as int)[i as int] != prefix@[i as int]);
            return false;
        }
        i += 1;
    }
    assert(prefix@ =~= s@.subrange(0, n as int));
    true
}

/// Whether `a` and `b` hold the same characters.
pub fn same_text(a: &str, b: &str) -> (r: bool)
    ensures
        r == (a@ == b@),
{
    if a.unicode_len() != b.unicode_len() {
        return false;
    }
    let r = starts_with(a, b);
    assert(a@.subrange(0, a@.len() as int) =~= a@);
    r
}

/// Whether `c` has the Unicode property `White_Space`: the answer of
/// `char::is_whitespace`, which this library takes as given.
pub uninterp spec fn white_space(c: char) -> bool;

/// `char::is_whitespace` is a function of the character alone; its answer is
/// what [`white_space`] stands for. Nothing is claimed about which characters
/// those are.
pub assume_specification[ char::is_whitespace ](c: char) -> (b: bool)
    ensures
        b == white_space(c),
;

/// `s` without its leading white space.
pub open spec fn trim_start(s: Seq<char>) -> Seq<char>
    decreases s.len(),
{
    if s.len() > 0 && white_space(s.first()) {
        trim_start(s.drop_first())
    } else {
        s
    }
}

/// `s` without its trailing white space.
pub open spec fn trim_end(s: Seq<char>) -> Seq<char>
    decreases s.len(),
{
    if s.len() > 0 && white_space(s.last()) {
        trim_end(s.drop_last())
    } else {
        s
    }
}

/// `s` without leading and trailing white space.
pub open spec fn trim(s: Seq<char>) -> Seq<char> {
    trim_end(trim_start(s))
}

/// Trimming at the front never lengthens, and shortens whenever the first
/// character is white space.
pub proof fn lemma_trim_start_len(s: Seq<char>)
    ensures
        trim_start(s).len() <= s.len(),
        s.len() > 0 && white_space(s.first()) ==> trim_start(s).len() < s.len(),
    decreases s.len(),
{
    if s.len() > 0 && white_space(s.first()) {
        lemma_trim_start_len(s.drop_first());
    }
}

/// Trimming at the back never lengthens, and shortens whenever the last
/// character is white space.
pub proof fn lemma_trim_end_len(s: Seq<char>)
    ensures
        trim_end(s).len() <= s.len(),
        s.len() > 0 && white_space(s.last()) ==> trim_end(s).len() < s.len(),
    decreases s.len(),
{
    if s.len() > 0 && white_space(s.last()) {
        lemma_trim_end_len(s.drop_last());
    }
}

/// A text equals its own trimmed form exactly when it is empty or neither
/// begins nor ends with white space.
pub proof fn lemma_trim_fixed_point(s: Seq<char>)
    ensures
        trim(s) == s <==> (s.len() == 0 || (!white_space(s.first()) && !white_space(s.last()))),
{
    lemma_trim_start_len(s);
    lemma_trim_end_len(s);
    lemma_trim_end_len(trim_start(s));
}

/// Whether trimming `s` would leave it unchanged.
pub fn is_trimmed(s: &str) -> (b: bool)
    ensures
        b == (trim(s@) == s@),
{
    proof {
        lemma_trim_fixed_point(s@);
    }
    let n: usize = s.unicode_len();
    if n == 0 {
        true
    } else {
        !s.get_char(0).is_whitespace() && !s.get_char(n - 1).is_whitespace()
    }
}

} // verus!
