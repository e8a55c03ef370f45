//! The generator configuration, its validation errors, and the generation
//! routine itself.

use vstd::prelude::*;

use crate::chars::build_pool;
use crate::chars::char_allowed;
use crate::chars::is_alphanumeric_code;
use crate::chars::is_digit_code;
use crate::chars::is_uppercase_code;
use crate::rng::random_index_below;

verus! {

/// The generation configuration: how many strings to produce, how long
/// each one is, and which optional character classes the pool keeps.
#[derive(Clone, Copy, Debug, PartialEq, Eq, Structural)]
pub struct RandomStringGenerator {
    /// Number of strings to produce. Zero is rejected by `generate`.
    pub count: u32,
    /// Number of characters per string. Zero is rejected by `generate`.
    pub length: u32,
    /// Keep non-alphanumeric code points in the pool.
    pub include_special_chars: bool,
    /// Keep decimal digits in the pool.
    pub include_numbers: bool,
    /// Keep uppercase letters in the pool.
    pub include_uppercase: bool,
}

/// A rejected configuration. Each variant carries a fixed human-readable
/// message, available through [`ValidationError::message`].
#[derive(Clone, Copy, Debug, PartialEq, Eq, Structural)]
pub enum ValidationError {
    /// The requested number of strings was zero.
    InvalidCount,
    /// The requested string length was zero.
    InvalidLength,
}

impl ValidationError {
    /// The fixed message of this error.
    pub fn message(&self) -> (s: String)
        ensures
            *self == ValidationError::InvalidCount ==> s@ == "Number of strings cannot be 0"@,
            *self == ValidationError::InvalidLength ==> s@ == "Length of the string cannot be 0"@,
    {
        match self {
            ValidationError::InvalidCount => String::from_str("Number of strings cannot be 0"),
            ValidationError::InvalidLength => String::from_str("Length of the string cannot be 0"),
        }
    }
}

/// The default configuration: five strings of thirty-two characters, every
/// character class included.
pub open spec fn default_config() -> RandomStringGenerator {
    RandomStringGenerator {
        count: 5,
        length: 32,
        include_special_chars: true,
        include_numbers: true,
        include_uppercase: true,
    }
}

impl Default for RandomStringGenerator {
    /// The default configuration, [`default_config`].
    fn default() -> (config: Self)
        ensures
            config == default_config(),
    {
        RandomStringGenerator {
            count: 5,
            length: 32,
            include_special_chars: true,
            include_numbers: true,
            include_uppercase: true,
        }
    }
}

/// What `generate` guarantees of a successful batch under a configuration:
/// exactly `count` strings, each of exactly `length` characters, every
/// character eligible under the configuration's toggles.
pub open spec fn valid_batch(config: RandomStringGenerator, batch: Seq<String>) -> bool {
    &&& batch.len() == config.count
    &&& forall|i: int| 0 <= i < batch.len() ==> (#[trigger] batch[i])@.len() == config.length
    &&& forall|i: int, j: int|
        0 <= i < batch.len() && 0 <= j < batch[i]@.len() ==> char_allowed(
            config,
            #[trigger] batch[i]@[j],
        )
}

impl RandomStringGenerator {
    /// A generator with the default configuration.
    pub fn new() -> (config: Self)
        ensures
            config == default_config(),
    {
        Self::default()
    }

    /// Produce `count` random strings of `length` characters each, drawn
    /// uniformly with replacement from the pool that the toggles leave
    /// eligible; or reject a zero `count` or a zero `length`, in that
    /// order, without producing anything.
    pub fn generate(&self) -> (result: Result<Vec<String>, ValidationError>)
        ensures
            result is Err <==> (self.count == 0 || self.length == 0),
            self.count == 0 ==> result == Result::<Vec<String>, ValidationError>::Err(
                ValidationError::InvalidCount,
            ),
            self.count != 0 && self.length == 0 ==> result == Result::<
                Vec<String>,
                ValidationError,
            >::Err(ValidationError::InvalidLength),
            result is Ok ==> valid_batch(*self, result->Ok_0@),
    {
        if self.count == 0 {
            return Err(ValidationError::InvalidCount);
        }
        if self.length == 0 {
            return Err(ValidationError::InvalidLength);
        }
        let pool = build_pool(self);
        let mut strings: Vec<String> = Vec::new();
        let mut made: u32 = 0;
        while made < self.count
            invariant
                made <= self.count,
                strings@.len() == made,
                pool@.len() > 0,
                forall|i: int|
                    0 <= i < pool@.len() ==> char_allowed(*self, #[trigger] pool@[i]),
                forall|i: int|
                    0 <= i < strings@.len() ==> (#[trigger] strings@[i])@.len() == self.length,
                forall|i: int, j: int|
                    0 <= i < strings@.len() && 0 <= j < strings@[i]@.len() ==> char_allowed(
                        *self,
                        #[trigger] strings@[i]@[j],
                    ),
            decreases self.count - made,
        {
            let s = sample_string(self, &pool, self.length);
            strings.push(s);
            made = made + 1;
        }
        Ok(strings)
    }
}

/// One random string of `length` characters, each drawn uniformly with
/// replacement from the pool.
fn sample_string(config: &RandomStringGenerator, pool: &Vec<char>, length: u32) -> (s: String)
    requires
        pool@.len() > 0,
        forall|i: int| 0 <= i < pool@.len() ==> char_allowed(*config, #[trigger] pool@[i]),
    ensures
        s@.len() == length,
        forall|j: int| 0 <= j < s@.len() ==> char_allowed(*config, #[trigger] s@[j]),
{
    let mut s = String::new();
    let mut drawn: u32 = 0;
    while drawn < length
        invariant
            drawn <= length,
            s@.len() == drawn,
            pool@.len() > 0,
            forall|i: int| 0 <= i < pool@.len() ==> char_allowed(*config, #[trigger] pool@[i]),
            forall|j: int| 0 <= j < s@.len() ==> char_allowed(*config, #[trigger] s@[j]),
        decreases length - drawn,
    {
        let i = random_index_below(pool.len());
        let c = pool[i];
        push_char(&mut s, c);
        drawn = drawn + 1;
    }
    s
}

/// Relies on `String::push`: it appends the given character to the end of
/// the string.
#[verifier::external_body]
fn push_char(s: &mut String, c: char)
    ensures
        final(s)@ == old(s)@.push(c),
{
    s.push(c);
}

/// The shape of a batch: two successful generations from one configuration
/// yield the same number of strings and the same length for each, whatever
/// their characters.
pub proof fn lemma_batches_match_in_shape(
    config: RandomStringGenerator,
    first: Seq<String>,
    second: Seq<String>,
)
    requires
        valid_batch(config, first),
        valid_batch(config, second),
    ensures
        first.len() == second.len(),
        forall|i: int| 0 <= i < first.len() ==> (#[trigger] first[i])@.len() == second[i]@.len(),
{
}

/// With numbers excluded, no string of a generated batch contains a digit
/// character.
pub proof fn lemma_no_digits_when_excluded(config: RandomStringGenerator, batch: Seq<String>)
    requires
        !config.include_numbers,
        valid_batch(config, batch),
    ensures
        forall|i: int, j: int|
            0 <= i < batch.len() && 0 <= j < batch[i]@.len() ==> !is_digit_code(
                (#[trigger] batch[i]@[j]) as u32,
            ),
{
}

/// With uppercase excluded, no string of a generated batch contains an
/// ASCII uppercase letter.
pub proof fn lemma_no_uppercase_when_excluded(config: RandomStringGenerator, batch: Seq<String>)
    requires
        !config.include_uppercase,
        valid_batch(config, batch),
    ensures
        forall|i: int, j: int|
            0 <= i < batch.len() && 0 <= j < batch[i]@.len() ==> !is_uppercase_code(
                (#[trigger] batch[i]@[j]) as u32,
            ),
{
}

/// With special characters excluded, every character of every string of a
/// generated batch is alphanumeric.
pub proof fn lemma_alphanumeric_when_special_excluded(
    config: RandomStringGenerator,
    batch: Seq<String>,
)
    requires
        !config.include_special_chars,
        valid_batch(config, batch),
    ensures
        forall|i: int, j: int|
            0 <= i < batch.len() && 0 <= j < batch[i]@.len() ==> is_alphanumeric_code(
                (#[trigger] batch[i]@[j]) as u32,
            ),
{
}

} // verus!
