//! A generator that draws identifiers and short codes at random.

use crate::domain::short_code::{is_alphanumeric_char, ShortCode};
use crate::domain::url_id::UrlId;
use crate::error::UrlShortenerError;
use crate::ports::id_generator::IdGenerator;
use rand::rngs::ThreadRng;
use rand::Rng;
use vstd::prelude::*;
use vstd::string::{is_ascii_spec_bytes, StrSliceExecFns, StringExecFns};

verus! {

/// `rand::rngs::ThreadRng`, the handle to the random number generator of the
/// current thread.
#[verifier::external_type_specification]
#[verifier::external_body]
pub struct ExThreadRng(rand::rngs::ThreadRng);

/// `rand::thread_rng` hands out the generator of the current thread. Nothing
/// is claimed of it.
pub assume_specification[ rand::thread_rng ]() -> ThreadRng;

/// Draws an index below `bound` with `rand::Rng::gen_range` on the range from
/// zero to `bound`, which must not be empty. The contract claims only that
/// the index lies in that range; which one comes is left to chance.
#[verifier::external_body]
fn random_index(rng: &mut ThreadRng, bound: usize) -> (index: usize)
    requires
        bound > 0,
    ensures
        index < bound,
{
    rng.gen_range(0..bound)
}

/// The characters that identifiers and short codes are drawn from.
pub const ALPHABET: &'static str = "abcdefghijklmnopqrstuvwxyzABCDEFGHIJKLMNOPQRSTUVWXYZ0123456789";

/// Whether every character of `s` is alphanumeric.
pub open spec fn is_alphanumeric_text(s: Seq<char>) -> bool {
    forall|i: int| 0 <= i < s.len() ==> is_alphanumeric_char(#[trigger] s[i])
}

/// The alphabet has 62 characters, all of them alphanumeric and all ASCII.
pub proof fn lemma_alphabet()
    ensures
        ALPHABET@.len() == 62,
        is_alphanumeric_text(ALPHABET@),
        ALPHABET.is_ascii(),
{
    reveal_strlit("abcdefghijklmnopqrstuvwxyzABCDEFGHIJKLMNOPQRSTUVWXYZ0123456789");
}

/// A generator of random alphanumeric identifiers and short codes.
pub struct RandomIdGenerator {
    short_code_length: usize,
}

impl RandomIdGenerator {
    /// The length of the short codes of a generator made with
    /// [`RandomIdGenerator::new`].
    pub const DEFAULT_SHORT_CODE_LENGTH: usize = 6;

    /// The length of the identifiers.
    pub const ID_LENGTH: usize = 16;

    /// How many candidates are tried before giving up on a short code.
    pub const MAX_ATTEMPTS: usize = 100;

    #[verifier::type_invariant]
    spec fn valid(&self) -> bool {
        ShortCode::MIN_LENGTH <= self.short_code_length <= ShortCode::MAX_LENGTH
    }

    /// Create a generator of short codes of the default length.
    pub fn new() -> (generator: Self)
        ensures
            generator.code_length() == Self::DEFAULT_SHORT_CODE_LENGTH,
    {
        RandomIdGenerator { short_code_length: Self::DEFAULT_SHORT_CODE_LENGTH }
    }

    /// Create a generator of short codes of `length` characters, which must
    /// be a length that a short code can have.
    pub fn with_length(length: usize) -> (generator: Self)
        requires
            ShortCode::MIN_LENGTH <= length <= ShortCode::MAX_LENGTH,
        ensures
            generator.code_length() == length,
    {
        RandomIdGenerator { short_code_length: length }
    }

    /// The length of the short codes that this generator hands out, which is
    /// always one that a short code can have.
    pub fn short_code_length(&self) -> (length: usize)
        ensures
            length == self.code_length(),
            ShortCode::MIN_LENGTH <= length <= ShortCode::MAX_LENGTH,
    {
        proof {
            use_type_invariant(self);
        }
        self.short_code_length
    }

    /// Generate a random text of `length` characters of the alphabet.
    pub fn generate_alphanumeric(&self, length: usize) -> (text: String)
        ensures
            text@.len() == length,
            is_alphanumeric_text(text@),
    {
        let mut rng = rand::thread_rng();
        let mut text = String::new();
        let mut drawn: usize = 0;
        let size = ALPHABET.len();
        proof {
            lemma_alphabet();
            is_ascii_spec_bytes(ALPHABET);
        }
        while drawn < length
            invariant
                drawn <= length,
                text@.len() == drawn,
                is_alphanumeric_text(text@),
                size == ALPHABET@.len() == 62,
                is_alphanumeric_text(ALPHABET@),
                ALPHABET.is_ascii(),
            decreases length - drawn,
        {
            let index = random_index(&mut rng, size);
            let ghost before = text@;
            text.append(ALPHABET.substring_ascii(index, index + 1));
            proof {
                let letter = ALPHABET@.subrange(index as int, index + 1);
                assert(letter.len() == 1);
                assert(letter[0] == ALPHABET@[index as int]);
                assert forall|i: int| 0 <= i < text@.len() implies is_alphanumeric_char(
                    #[trigger] text@[i],
                ) by {
                    if i < before.len() {
                        assert(text@[i] == before[i]);
                    } else {
                        assert(text@[i] == letter[0]);
                    }
                }
            }
            drawn += 1;
        }
        text
    }
}

impl Default for RandomIdGenerator {
    fn default() -> (generator: Self)
        ensures
            generator.code_length() == Self::DEFAULT_SHORT_CODE_LENGTH,
    {
        Self::new()
    }
}

impl IdGenerator for RandomIdGenerator {
    closed spec fn code_length(&self) -> nat {
        self.short_code_length as nat
    }

    open spec fn infallible() -> bool {
        true
    }

    /// The identifier has sixteen characters, all alphanumeric.
    fn generate_id(&self) -> (id: UrlId)
        ensures
            id@.len() == Self::ID_LENGTH,
            is_alphanumeric_text(id@),
    {
        UrlId::new(self.generate_alphanumeric(Self::ID_LENGTH))
    }

    /// The short code has the length that the generator was made for. A
    /// candidate is drawn and validated, and since every text that can be
    /// drawn is valid, the first one is accepted: the generator never fails.
    fn generate_short_code(&self) -> (r: Result<ShortCode, UrlShortenerError>)
    {
        let length = self.short_code_length();
        let mut attempt: usize = 0;
        while attempt < Self::MAX_ATTEMPTS
            invariant
                length == self.code_length(),
                ShortCode::MIN_LENGTH <= length <= ShortCode::MAX_LENGTH,
                // No candidate has been refused yet, and none ever is.
                attempt == 0,
            decreases Self::MAX_ATTEMPTS - attempt,
        {
            let candidate = self.generate_alphanumeric(length);
            match ShortCode::new(candidate) {
                Ok(short_code) => {
                    return Ok(short_code);
                },
                Err(_) => {
                    attempt += 1;
                },
            }
        }
        Err(UrlShortenerError::IdGenerationFailed(Self::MAX_ATTEMPTS))
    }
}

} // verus!
