//! Short codes: the validated keys under which URLs are stored.

use crate::error::{ErrorView, UrlShortenerError};
use vstd::prelude::*;
use vstd::string::StrSliceExecFns;

verus! {

/// Whether `c` is one of the characters `a`-`z`, `A`-`Z`, `0`-`9`.
pub open spec fn is_alphanumeric_char(c: char) -> bool {
    ||| 'a' <= c <= 'z'
    ||| 'A' <= c <= 'Z'
    ||| '0' <= c <= '9'
}

/// Whether `s` is a well-formed short code: between 4 and 12 characters,
/// every one of them alphanumeric.
pub open spec fn is_valid_short_code(s: Seq<char>) -> bool {
    &&& ShortCode::MIN_LENGTH <= s.len() <= ShortCode::MAX_LENGTH
    &&& forall|i: int| 0 <= i < s.len() ==> is_alphanumeric_char(#[trigger] s[i])
}

/// The reason given for a string that has fewer than four characters.
pub const TOO_SHORT: &'static str = "Too short: must be at least 4 characters";

/// The reason given for a string that has more than twelve characters.
pub const TOO_LONG: &'static str = "Too long: must be at most 12 characters";

/// The reason given for a string of the right length that holds a character
/// which is not alphanumeric.
pub const NOT_ALPHANUMERIC: &'static str = "Must contain only alphanumeric characters";

/// The error with which validation refuses `s`, or `None` where `s` is valid.
pub open spec fn rejection(s: Seq<char>) -> Option<ErrorView> {
    if s.len() < ShortCode::MIN_LENGTH {
        Some(ErrorView::InvalidShortCode(TOO_SHORT@))
    } else if s.len() > ShortCode::MAX_LENGTH {
        Some(ErrorView::InvalidShortCode(TOO_LONG@))
    } else if !is_valid_short_code(s) {
        Some(ErrorView::InvalidShortCode(NOT_ALPHANUMERIC@))
    } else {
        None
    }
}

/// Validation refuses exactly the strings that are too short, too long, or
/// hold a character that is not alphanumeric, and accepts all others.
pub proof fn lemma_rejection_is_exact(s: Seq<char>)
    ensures
        rejection(s) is None <==> is_valid_short_code(s),
        rejection(s) is Some <==> (s.len() < ShortCode::MIN_LENGTH || s.len() > ShortCode::MAX_LENGTH || exists|i: int|
            0 <= i < s.len() && !is_alphanumeric_char(#[trigger] s[i])),
{
}

/// Whether `c` is an ASCII letter or digit.
pub fn is_alphanumeric(c: char) -> (b: bool)
    ensures
        b == is_alphanumeric_char(c),
{
    ('a' <= c && c <= 'z') || ('A' <= c && c <= 'Z') || ('0' <= c && c <= '9')
}

/// A short code that has passed validation.
#[derive(Debug, PartialEq, Eq, Hash)]
pub struct ShortCode(String);

impl View for ShortCode {
    type V = Seq<char>;

    closed spec fn view(&self) -> Seq<char> {
        self.0@
    }
}

impl Clone for ShortCode {
    fn clone(&self) -> (copy: Self)
        ensures
            copy@ == self@,
    {
        proof {
            use_type_invariant(self);
        }
        ShortCode(self.0.clone())
    }
}

impl ShortCode {
    /// The least number of characters in a short code.
    pub const MIN_LENGTH: usize = 4;

    /// The greatest number of characters in a short code.
    pub const MAX_LENGTH: usize = 12;

    /// What holds of every short code: its text is valid. Verus checks this
    /// wherever a short code is made, so `use_type_invariant` gives it of
    /// any short code at hand.
    #[verifier::type_invariant]
    pub open spec fn is_valid(&self) -> bool {
        is_valid_short_code(self@)
    }

    /// Create a short code from `code`, which must be valid.
    ///
    /// Succeeds exactly on the valid strings and keeps the text as given;
    /// any other string is refused with the reason that [`rejection`] names.
    pub fn new(code: String) -> (r: Result<Self, UrlShortenerError>)
        ensures
            match r {
                Ok(short_code) => is_valid_short_code(code@) && short_code@ == code@,
                Err(e) => rejection(code@) == Some(e@),
            },
            r is Ok <==> is_valid_short_code(code@),
    {
        match Self::validate(code.as_str()) {
            Ok(()) => Ok(ShortCode(code)),
            Err(e) => Err(e),
        }
    }

    /// Check that `code` is a valid short code.
    ///
    /// The length is checked first, so a string that is both too long and
    /// not alphanumeric is reported as too long.
    pub fn validate(code: &str) -> (r: Result<(), UrlShortenerError>)
        ensures
            match r {
                Ok(()) => rejection(code@) is None,
                Err(e) => rejection(code@) == Some(e@),
            },
            r is Ok <==> is_valid_short_code(code@),
    {
        let length = code.unicode_len();
        if length < Self::MIN_LENGTH {
            return Err(UrlShortenerError::InvalidShortCode(TOO_SHORT.to_owned()));
        }
        if length > Self::MAX_LENGTH {
            return Err(UrlShortenerError::InvalidShortCode(TOO_LONG.to_owned()));
        }
        let mut i: usize = 0;
        while i < length
            invariant
                length == code@.len(),
                Self::MIN_LENGTH <= length <= Self::MAX_LENGTH,
                i <= length,
                forall|j: int| 0 <= j < i ==> is_alphanumeric_char(#[trigger] code@[j]),
            decreases length - i,
        {
            if !is_alphanumeric(code.get_char(i)) {
                return Err(UrlShortenerError::InvalidShortCode(NOT_ALPHANUMERIC.to_owned()));
            }
            i += 1;
        }
        Ok(())
    }

    /// Get the short code as a string slice. The text is always valid.
    pub fn as_str(&self) -> (s: &str)
        ensures
            s@ == self@,
            is_valid_short_code(s@),
    {
        proof {
            use_type_invariant(self);
        }
        self.0.as_str()
    }

    /// Give up the short code for the text it holds. The text is always valid.
    pub fn into_inner(self) -> (code: String)
        ensures
            code@ == self@,
            is_valid_short_code(code@),
    {
        proof {
            use_type_invariant(&self);
        }
        self.0
    }

    /// The short code as an owned text, as it is shown to a reader.
    pub fn to_string(&self) -> (text: String)
        ensures
            text@ == self@,
            is_valid_short_code(text@),
    {
        proof {
            use_type_invariant(self);
        }
        self.0.clone()
    }
}

} // verus!
