//! Validation of AWS region names and the OIDC endpoint derived from them.

use vstd::prelude::*;

verus! {

/// Longest region name (in characters) that is accepted.
pub const MAX_REGION_LEN: usize = 64;

/// A character that may appear in a region name: `a`-`z`, `0`-`9` or `-`.
pub open spec fn is_region_char(c: char) -> bool {
    ('a' <= c && c <= 'z') || ('0' <= c && c <= '9') || c == '-'
}

/// A region name is non-empty, at most 64 characters long and made only of
/// lowercase ASCII letters, ASCII digits and `-`.
pub open spec fn region_ok(s: Seq<char>) -> bool {
    &&& 0 < s.len() <= MAX_REGION_LEN
    &&& forall|i: int| 0 <= i < s.len() ==> #[trigger] is_region_char(s[i])
}

fn region_char(c: char) -> (r: bool)
    ensures
        r == is_region_char(c),
{
    ('a' <= c && c <= 'z') || ('0' <= c && c <= '9') || c == '-'
}

/// Validate an AWS region string before it is interpolated into the OIDC
/// endpoint URL, so that a corrupted registration cannot steer requests at an
/// arbitrary host.
pub fn valid_region(region: &str) -> (r: bool)
    ensures
        r == region_ok(region@),
{
    let n = region.unicode_len();
    if n == 0 || n > MAX_REGION_LEN {
        return false;
    }
    let mut i: usize = 0;
    while i < n
        invariant
            n == region@.len(),
            i <= n,
            forall|j: int| 0 <= j < i ==> #[trigger] is_region_char(region@[j]),
        decreases n - i,
    {
        if !region_char(region.get_char(i)) {
            return false;
        }
        i = i + 1;
    }
    true
}

/// An accepted region cannot leave its DNS label: it holds no `.`, `/`, `:`,
/// `@`, space or uppercase letter.
pub proof fn law_valid_region_stays_one_label(s: Seq<char>, i: int)
    requires
        region_ok(s),
        0 <= i < s.len(),
    ensures
        s[i] != '.' && s[i] != '/' && s[i] != ':' && s[i] != '@' && s[i] != ' ',
        !('A' <= s[i] && s[i] <= 'Z'),
{
    assert(is_region_char(s[i]));
}

} // verus!
