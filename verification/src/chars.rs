//! Classification of ASCII code points and construction of the character
//! pool that sampling draws from.
//!
//! The pool starts from the code points 0 through 127 and drops whitespace
//! unconditionally, digits unless numbers are included, uppercase letters
//! unless uppercase is included, and every non-alphanumeric code point
//! unless special characters are included. Lowercase letters survive every
//! toggle combination, so the pool is never empty.

use vstd::prelude::*;

use crate::generator::RandomStringGenerator;

verus! {

/// The whitespace code points in the ASCII range: tab, line feed, vertical
/// tab, form feed, carriage return and space.
pub open spec fn is_whitespace_code(u: u32) -> bool {
    u == 9 || u == 10 || u == 11 || u == 12 || u == 13 || u == 32
}

/// The decimal digit code points, `'0'` through `'9'`.
pub open spec fn is_digit_code(u: u32) -> bool {
    48 <= u <= 57
}

/// The uppercase letter code points, `'A'` through `'Z'`.
pub open spec fn is_uppercase_code(u: u32) -> bool {
    65 <= u <= 90
}

/// The lowercase letter code points, `'a'` through `'z'`.
pub open spec fn is_lowercase_code(u: u32) -> bool {
    97 <= u <= 122
}

/// Letter or digit, per ASCII classification.
pub open spec fn is_alphanumeric_code(u: u32) -> bool {
    is_digit_code(u) || is_uppercase_code(u) || is_lowercase_code(u)
}

/// Whether a character is eligible for sampling under the given
/// configuration: an ASCII, non-whitespace code point that every disabled
/// toggle leaves in place.
pub open spec fn char_allowed(config: RandomStringGenerator, c: char) -> bool {
    let u = c as u32;
    &&& u <= 127
    &&& !is_whitespace_code(u)
    &&& config.include_numbers || !is_digit_code(u)
    &&& config.include_uppercase || !is_uppercase_code(u)
    &&& config.include_special_chars || is_alphanumeric_code(u)
}

/// The eligible characters with code point below `n`, in increasing order.
pub open spec fn pool_below(config: RandomStringGenerator, n: nat) -> Seq<char>
    decreases n,
{
    if n == 0 {
        Seq::empty()
    } else {
        let c = (((n - 1) as nat) as u8) as char;
        let rest = pool_below(config, (n - 1) as nat);
        if char_allowed(config, c) {
            rest.push(c)
        } else {
            rest
        }
    }
}

/// The full character pool of a configuration: the eligible code points of
/// the range 0 through 127, in increasing order.
pub open spec fn spec_pool(config: RandomStringGenerator) -> Seq<char> {
    pool_below(config, 128)
}

/// Every character of `pool_below` is eligible.
proof fn lemma_pool_below_allowed(config: RandomStringGenerator, n: nat)
    ensures
        forall|i: int|
            0 <= i < pool_below(config, n).len() ==> char_allowed(
                config,
                #[trigger] pool_below(config, n)[i],
            ),
    decreases n,
{
    if n > 0 {
        let prev = (n - 1) as nat;
        lemma_pool_below_allowed(config, prev);
        let c = (prev as u8) as char;
        let rest = pool_below(config, prev);
        if char_allowed(config, c) {
            assert(pool_below(config, n) == rest.push(c));
            assert forall|i: int|
                0 <= i < pool_below(config, n).len() implies char_allowed(
                config,
                #[trigger] pool_below(config, n)[i],
            ) by {
                if i < rest.len() {
                    assert(pool_below(config, n)[i] == rest[i]);
                } else {
                    assert(pool_below(config, n)[i] == c);
                }
            }
        } else {
            assert(pool_below(config, n) == rest);
        }
    }
}

/// Every eligible character with code point below `n` is in `pool_below`.
proof fn lemma_pool_below_complete(config: RandomStringGenerator, n: nat, c: char)
    requires
        (c as u32) < n,
        n <= 128,
        char_allowed(config, c),
    ensures
        pool_below(config, n).contains(c),
    decreases n,
{
    let prev = (n - 1) as nat;
    if (c as u32) < prev {
        lemma_pool_below_complete(config, prev, c);
        assert(pool_below(config, prev).contains(c));
        let i = choose|i: int| 0 <= i < pool_below(config, prev).len() && pool_below(
            config,
            prev,
        )[i] == c;
        assert(pool_below(config, n)[i] == c);
    } else {
        assert(c as u32 == prev);
        assert(pool_below(config, n).last() == c);
    }
}

/// Whether a character is eligible, decided executably.
pub fn char_allowed_exec(config: &RandomStringGenerator, c: char) -> (r: bool)
    ensures
        r == char_allowed(*config, c),
{
    let u = c as u32;
    u <= 127 && !(u == 9 || u == 10 || u == 11 || u == 12 || u == 13 || u == 32) && (
    config.include_numbers || !(48 <= u && u <= 57)) && (config.include_uppercase || !(65 <= u
        && u <= 90)) && (config.include_special_chars || (48 <= u && u <= 57) || (65 <= u && u
        <= 90) || (97 <= u && u <= 122))
}

/// Build the character pool of a configuration: exactly the eligible code
/// points of the range 0 through 127, in increasing order. The pool is
/// never empty, since lowercase letters cannot be excluded.
pub fn build_pool(config: &RandomStringGenerator) -> (pool: Vec<char>)
    ensures
        pool@ == spec_pool(*config),
        pool@.len() > 0,
        forall|i: int| 0 <= i < pool@.len() ==> char_allowed(*config, #[trigger] pool@[i]),
        forall|c: char| char_allowed(*config, c) ==> pool@.contains(c),
{
    let mut pool: Vec<char> = Vec::new();
    let mut code: u8 = 0;
    while code < 128
        invariant
            code <= 128,
            pool@ == pool_below(*config, code as nat),
        decreases 128 - code,
    {
        let c = code as char;
        assert(c as u32 == code);
        if char_allowed_exec(config, c) {
            pool.push(c);
        }
        code = code + 1;
    }
    proof {
        lemma_pool_below_allowed(*config, 128);
        assert(char_allowed(*config, 'a'));
        lemma_pool_below_complete(*config, 128, 'a');
        assert forall|c: char| char_allowed(*config, c) implies pool@.contains(c) by {
            lemma_pool_below_complete(*config, 128, c);
        }
    }
    pool
}

} // verus!
