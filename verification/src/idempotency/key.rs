//! The client-supplied token that identifies one logical submission.

use vstd::prelude::*;
use vstd::string::StrSliceExecFns;

verus! {

/// The largest number of characters a key may hold.
pub const MAX_KEY_LENGTH: usize = 50;

/// The texts that are idempotency keys: not empty, at most 50 characters.
pub open spec fn is_valid_key(s: Seq<char>) -> bool {
    0 < s.len() <= MAX_KEY_LENGTH
}

/// Why a text is no idempotency key.
#[derive(Debug, Clone, Copy, PartialEq, Eq, Structural)]
pub enum ValidationError {
    /// The key is the empty text.
    EmptyKey,
    /// The key has more than 50 characters.
    KeyTooLong,
}

impl ValidationError {
    /// The error in words.
    pub fn message(&self) -> (m: String)
        ensures
            m@ == match *self {
                ValidationError::EmptyKey => "The idempotency key cannot be empty"@,
                ValidationError::KeyTooLong => "The idempotency key must not be longer than 50 characters"@,
            },
    {
        match self {
            ValidationError::EmptyKey => "The idempotency key cannot be empty".to_owned(),
            ValidationError::KeyTooLong => {
                "The idempotency key must not be longer than 50 characters".to_owned()
            },
        }
    }
}

/// What `IdempotencyKey::parse` owes on the text `s`.
pub open spec fn key_error(s: Seq<char>) -> Option<ValidationError> {
    if s.len() == 0 {
        Some(ValidationError::EmptyKey)
    } else if s.len() > MAX_KEY_LENGTH {
        Some(ValidationError::KeyTooLong)
    } else {
        None
    }
}

/// A validated idempotency key. It never changes once made.
#[derive(Debug)]
pub struct IdempotencyKey(String);

impl View for IdempotencyKey {
    type V = Seq<char>;

    closed spec fn view(&self) -> Seq<char> {
        self.0@
    }
}

impl Clone for IdempotencyKey {
    fn clone(&self) -> (copy: Self)
        ensures
            copy@ == self@,
    {
        proof {
            use_type_invariant(self);
        }
        IdempotencyKey(self.0.clone())
    }
}

impl IdempotencyKey {
    #[verifier::type_invariant]
    spec fn well_formed(&self) -> bool {
        is_valid_key(self.0@)
    }

    /// Accepts exactly the texts of 1 to 50 characters and keeps them as
    /// given.
    pub fn parse(s: String) -> (r: Result<IdempotencyKey, ValidationError>)
        ensures
            match r {
                Ok(key) => key_error(s@) is None && key@ == s@,
                Err(e) => key_error(s@) == Some(e),
            },
    {
        let length = s.as_str().unicode_len();
        if length == 0 {
            Err(ValidationError::EmptyKey)
        } else if length > MAX_KEY_LENGTH {
            Err(ValidationError::KeyTooLong)
        } else {
            Ok(IdempotencyKey(s))
        }
    }

    pub(crate) fn as_string(&self) -> (s: &String)
        ensures
            s@ == self@,
            is_valid_key(s@),
    {
        proof {
            use_type_invariant(self);
        }
        &self.0
    }

    /// The key as text.
    pub fn as_ref(&self) -> (s: &str)
        ensures
            s@ == self@,
            is_valid_key(s@),
    {
        proof {
            use_type_invariant(self);
        }
        self.0.as_str()
    }
}

} // verus!
