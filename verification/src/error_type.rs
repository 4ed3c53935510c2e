//! The closed classification of failure categories and its bidirectional
//! mapping to canonical lowercase-hyphenated names.

use vstd::prelude::*;

use crate::text::{is_type_char, str_eq};

verus! {

/// Standardized classification of why an operation failed. The set is closed
/// and each variant is in bijection with a fixed canonical name that is part
/// of the wire format.
#[derive(Clone, Copy, Debug, PartialEq, Eq, Structural)]
pub enum ErrorType {
    /// The failure is not classified; the default classification.
    UndefinedError,
    /// A creation operation failed.
    CreationError,
    /// An updating operation failed.
    UpdatingError,
    /// A fetching operation failed.
    FetchingError,
    /// A deletion operation failed.
    DeletionError,
    /// A business rule was violated.
    UseCaseError,
    /// A generic runtime failure unrelated to a specific action.
    ExecutionError,
    /// The persistence layer is misconfigured.
    InvalidRepositoryError,
    /// The caller supplied invalid input.
    InvalidArgumentError,
}

/// The canonical name of each classification, fixed once published.
pub open spec fn name_of(t: ErrorType) -> Seq<char> {
    match t {
        ErrorType::UndefinedError => "undefined-error"@,
        ErrorType::CreationError => "creation-error"@,
        ErrorType::UpdatingError => "updating-error"@,
        ErrorType::FetchingError => "fetching-error"@,
        ErrorType::DeletionError => "deletion-error"@,
        ErrorType::UseCaseError => "use-case-error"@,
        ErrorType::ExecutionError => "execution-error"@,
        ErrorType::InvalidRepositoryError => "invalid-repository-error"@,
        ErrorType::InvalidArgumentError => "invalid-argument-error"@,
    }
}

/// Strict resolution of a canonical name: exact match only, no fuzziness.
pub open spec fn type_of_name(s: Seq<char>) -> Option<ErrorType> {
    if s == "undefined-error"@ {
        Some(ErrorType::UndefinedError)
    } else if s == "creation-error"@ {
        Some(ErrorType::CreationError)
    } else if s == "updating-error"@ {
        Some(ErrorType::UpdatingError)
    } else if s == "fetching-error"@ {
        Some(ErrorType::FetchingError)
    } else if s == "deletion-error"@ {
        Some(ErrorType::DeletionError)
    } else if s == "use-case-error"@ {
        Some(ErrorType::UseCaseError)
    } else if s == "execution-error"@ {
        Some(ErrorType::ExecutionError)
    } else if s == "invalid-repository-error"@ {
        Some(ErrorType::InvalidRepositoryError)
    } else if s == "invalid-argument-error"@ {
        Some(ErrorType::InvalidArgumentError)
    } else {
        None
    }
}

impl ErrorType {
    /// The canonical name of this classification, as a fresh string.
    pub fn canonical_name(&self) -> (r: String)
        ensures
            r@ == name_of(*self),
    {
        match self {
            ErrorType::UndefinedError => "undefined-error".to_owned(),
            ErrorType::CreationError => "creation-error".to_owned(),
            ErrorType::UpdatingError => "updating-error".to_owned(),
            ErrorType::FetchingError => "fetching-error".to_owned(),
            ErrorType::DeletionError => "deletion-error".to_owned(),
            ErrorType::UseCaseError => "use-case-error".to_owned(),
            ErrorType::ExecutionError => "execution-error".to_owned(),
            ErrorType::InvalidRepositoryError => "invalid-repository-error".to_owned(),
            ErrorType::InvalidArgumentError => "invalid-argument-error".to_owned(),
        }
    }

    /// Strict parse of a canonical name; `None` on any other input.
    pub fn from_name(s: &str) -> (r: Option<ErrorType>)
        ensures
            r == type_of_name(s@),
    {
        if str_eq(s, "undefined-error") {
            Some(ErrorType::UndefinedError)
        } else if str_eq(s, "creation-error") {
            Some(ErrorType::CreationError)
        } else if str_eq(s, "updating-error") {
            Some(ErrorType::UpdatingError)
        } else if str_eq(s, "fetching-error") {
            Some(ErrorType::FetchingError)
        } else if str_eq(s, "deletion-error") {
            Some(ErrorType::DeletionError)
        } else if str_eq(s, "use-case-error") {
            Some(ErrorType::UseCaseError)
        } else if str_eq(s, "execution-error") {
            Some(ErrorType::ExecutionError)
        } else if str_eq(s, "invalid-repository-error") {
            Some(ErrorType::InvalidRepositoryError)
        } else if str_eq(s, "invalid-argument-error") {
            Some(ErrorType::InvalidArgumentError)
        } else {
            None
        }
    }
}

/// The name mapping is a bijection: resolving the canonical name of any
/// classification yields that classification back.
pub proof fn lemma_type_name_bijective(t: ErrorType)
    ensures
        type_of_name(name_of(t)) == Some(t),
{
    reveal_strlit("undefined-error");
    reveal_strlit("creation-error");
    reveal_strlit("updating-error");
    reveal_strlit("fetching-error");
    reveal_strlit("deletion-error");
    reveal_strlit("use-case-error");
    reveal_strlit("execution-error");
    reveal_strlit("invalid-repository-error");
    reveal_strlit("invalid-argument-error");
    assert("undefined-error"@.len() == 15);
    assert("creation-error"@.len() == 14);
    assert("updating-error"@.len() == 14);
    assert("fetching-error"@.len() == 14);
    assert("deletion-error"@.len() == 14);
    assert("use-case-error"@.len() == 14);
    assert("execution-error"@.len() == 15);
    assert("invalid-repository-error"@.len() == 24);
    assert("invalid-argument-error"@.len() == 22);
    assert("undefined-error"@[0] == 'u');
    assert("creation-error"@[0] == 'c');
    assert("updating-error"@[0] == 'u');
    assert("updating-error"@[1] == 'p');
    assert("fetching-error"@[0] == 'f');
    assert("deletion-error"@[0] == 'd');
    assert("use-case-error"@[0] == 'u');
    assert("use-case-error"@[1] == 's');
    assert("execution-error"@[0] == 'e');
}

/// Every canonical name is non-empty and made of letters and hyphens only —
/// the alphabet the textual form admits in its type field.
pub proof fn lemma_name_of_type_chars(t: ErrorType)
    ensures
        name_of(t).len() > 0,
        forall|k: int| 0 <= k < name_of(t).len() ==> is_type_char(#[trigger] name_of(t)[k]),
{
    reveal_strlit("undefined-error");
    reveal_strlit("creation-error");
    reveal_strlit("updating-error");
    reveal_strlit("fetching-error");
    reveal_strlit("deletion-error");
    reveal_strlit("use-case-error");
    reveal_strlit("execution-error");
    reveal_strlit("invalid-repository-error");
    reveal_strlit("invalid-argument-error");
}

} // verus!
