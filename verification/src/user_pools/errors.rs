//! The error taxonomy: the kinds that every action shares, and their union
//! with the kinds of one action.

use crate::common::str_eq;
use crate::http::{status_code, status_number, status_of};
use hyper::StatusCode;
use vstd::prelude::*;

verus! {

/// A value that maps to exactly one status code.
pub trait ToStatusCode {
    /// The number of the status that this value maps to.
    spec fn status(&self) -> u16;

    /// The status code that this value maps to.
    fn to_status_code(&self) -> (code: StatusCode)
        ensures
            code == status_of(self.status()),
            status_number(code) == self.status(),
    ;
}

/// A name that no error kind in scope carries.
#[derive(Clone, Copy, Debug, PartialEq, Eq, Structural)]
pub struct UnknownErrorName;

/// A closed set of error kinds, each with a name of its own.
pub trait ErrorKind: ToStatusCode + Sized {
    /// The name of this kind.
    spec fn name(&self) -> Seq<char>;

    /// The kind that carries `name`, if there is one.
    spec fn parse(name: Seq<char>) -> Option<Self>;

    /// The name of this kind as an owned string.
    fn to_string(&self) -> (text: String)
        ensures
            text@ == self.name(),
    ;

    /// Finds the kind that carries `name` by exact match.
    fn from_str(name: &str) -> (kind: Result<Self, UnknownErrorName>)
        ensures
            kind == match Self::parse(name@) {
                Some(k) => Ok::<Self, UnknownErrorName>(k),
                None => Err::<Self, UnknownErrorName>(UnknownErrorName),
            },
    ;

    /// Parsing the name of a kind gives that kind back.
    proof fn lemma_parse_of_name(&self)
        ensures
            Self::parse(self.name()) == Some(*self),
    ;

    /// A name parses only to the kind that carries it.
    proof fn lemma_name_of_parse(name: Seq<char>)
        ensures
            Self::parse(name) matches Some(kind) ==> kind.name() == name,
    ;
}

/// The error kinds of one action. None of them carries the name of a common kind.
pub trait ActionError: ErrorKind {
    /// No common kind's name parses as a kind of this action.
    proof fn lemma_no_common_name(common: CommonError)
        ensures
            Self::parse(common.name()) is None,
    ;
}

/// Whether two names differ in their length, their first character or their
/// eighth. That much tells every error name of the taxonomy from every other.
pub open spec fn told_apart(first: Seq<char>, second: Seq<char>) -> bool {
    first.len() != second.len() || first[0] != second[0] || first[7] != second[7]
}

/// The error kinds that every action shares.
#[derive(Clone, Copy, Debug, PartialEq, Eq, Structural)]
pub enum CommonError {
    AccessDeniedException,
    IncompleteSignature,
    InternalFailure,
    InvalidAction,
    InvalidClientTokenId,
    InvalidParameterCombination,
    InvalidParameterValue,
    InvalidQueryParameter,
    MalformedQueryString,
    MissingAction,
    MissingAuthenticationToken,
    MissingParameter,
    NotAuthorized,
    OptInRequired,
    RequestExpired,
    ServiceUnavailable,
    ThrottlingException,
    ValidationError,
}

impl CommonError {
    /// The name of this kind as it stands in an error body.
    pub fn as_str(&self) -> (name: &'static str)
        ensures
            name@ == self.name(),
    {
        match self {
            CommonError::AccessDeniedException => "AccessDeniedException",
            CommonError::IncompleteSignature => "IncompleteSignature",
            CommonError::InternalFailure => "InternalFailure",
            CommonError::InvalidAction => "InvalidAction",
            CommonError::InvalidClientTokenId => "InvalidClientTokenId",
            CommonError::InvalidParameterCombination => "InvalidParameterCombination",
            CommonError::InvalidParameterValue => "InvalidParameterValue",
            CommonError::InvalidQueryParameter => "InvalidQueryParameter",
            CommonError::MalformedQueryString => "MalformedQueryString",
            CommonError::MissingAction => "MissingAction",
            CommonError::MissingAuthenticationToken => "MissingAuthenticationToken",
            CommonError::MissingParameter => "MissingParameter",
            CommonError::NotAuthorized => "NotAuthorized",
            CommonError::OptInRequired => "OptInRequired",
            CommonError::RequestExpired => "RequestExpired",
            CommonError::ServiceUnavailable => "ServiceUnavailable",
            CommonError::ThrottlingException => "ThrottlingException",
            CommonError::ValidationError => "ValidationError",
        }
    }

    /// Two different kinds carry names that differ in their length, their first
    /// character or their eighth: no two kinds share a name.
    pub proof fn lemma_names_told_apart(first: CommonError, second: CommonError)
        requires
            first != second,
        ensures
            told_apart(first.name(), second.name()),
    {
        reveal_strlit("AccessDeniedException");
        reveal_strlit("IncompleteSignature");
        reveal_strlit("InternalFailure");
        reveal_strlit("InvalidAction");
        reveal_strlit("InvalidClientTokenId");
        reveal_strlit("InvalidParameterCombination");
        reveal_strlit("InvalidParameterValue");
        reveal_strlit("InvalidQueryParameter");
        reveal_strlit("MalformedQueryString");
        reveal_strlit("MissingAction");
        reveal_strlit("MissingAuthenticationToken");
        reveal_strlit("MissingParameter");
        reveal_strlit("NotAuthorized");
        reveal_strlit("OptInRequired");
        reveal_strlit("RequestExpired");
        reveal_strlit("ServiceUnavailable");
        reveal_strlit("ThrottlingException");
        reveal_strlit("ValidationError");
    }
}

impl ErrorKind for CommonError {
    open spec fn name(&self) -> Seq<char> {
        match self {
            CommonError::AccessDeniedException => "AccessDeniedException"@,
            CommonError::IncompleteSignature => "IncompleteSignature"@,
            CommonError::InternalFailure => "InternalFailure"@,
            CommonError::InvalidAction => "InvalidAction"@,
            CommonError::InvalidClientTokenId => "InvalidClientTokenId"@,
            CommonError::InvalidParameterCombination => "InvalidParameterCombination"@,
            CommonError::InvalidParameterValue => "InvalidParameterValue"@,
            CommonError::InvalidQueryParameter => "InvalidQueryParameter"@,
            CommonError::MalformedQueryString => "MalformedQueryString"@,
            CommonError::MissingAction => "MissingAction"@,
            CommonError::MissingAuthenticationToken => "MissingAuthenticationToken"@,
            CommonError::MissingParameter => "MissingParameter"@,
            CommonError::NotAuthorized => "NotAuthorized"@,
            CommonError::OptInRequired => "OptInRequired"@,
            CommonError::RequestExpired => "RequestExpired"@,
            CommonError::ServiceUnavailable => "ServiceUnavailable"@,
            CommonError::ThrottlingException => "ThrottlingException"@,
            CommonError::ValidationError => "ValidationError"@,
        }
    }

    open spec fn parse(name: Seq<char>) -> Option<Self> {
        if name == "AccessDeniedException"@ {
            Some(CommonError::AccessDeniedException)
        } else if name == "IncompleteSignature"@ {
            Some(CommonError::IncompleteSignature)
        } else if name == "InternalFailure"@ {
            Some(CommonError::InternalFailure)
        } else if name == "InvalidAction"@ {
            Some(CommonError::InvalidAction)
        } else if name == "InvalidClientTokenId"@ {
            Some(CommonError::InvalidClientTokenId)
        } else if name == "InvalidParameterCombination"@ {
            Some(CommonError::InvalidParameterCombination)
        } else if name == "InvalidParameterValue"@ {
            Some(CommonError::InvalidParameterValue)
        } else if name == "InvalidQueryParameter"@ {
            Some(CommonError::InvalidQueryParameter)
        } else if name == "MalformedQueryString"@ {
            Some(CommonError::MalformedQueryString)
        } else if name == "MissingAction"@ {
            Some(CommonError::MissingAction)
        } else if name == "MissingAuthenticationToken"@ {
            Some(CommonError::MissingAuthenticationToken)
        } else if name == "MissingParameter"@ {
            Some(CommonError::MissingParameter)
        } else if name == "NotAuthorized"@ {
            Some(CommonError::NotAuthorized)
        } else if name == "OptInRequired"@ {
            Some(CommonError::OptInRequired)
        } else if name == "RequestExpired"@ {
            Some(CommonError::RequestExpired)
        } else if name == "ServiceUnavailable"@ {
            Some(CommonError::ServiceUnavailable)
        } else if name == "ThrottlingException"@ {
            Some(CommonError::ThrottlingException)
        } else if name == "ValidationError"@ {
            Some(CommonError::ValidationError)
        } else {
            None
        }
    }

    fn to_string(&self) -> (text: String) {
        self.as_str().to_owned()
    }

    fn from_str(name: &str) -> (kind: Result<Self, UnknownErrorName>) {
        if str_eq(name, "AccessDeniedException") {
            Ok(CommonError::AccessDeniedException)
        } else if str_eq(name, "IncompleteSignature") {
            Ok(CommonError::IncompleteSignature)
        } else if str_eq(name, "InternalFailure") {
            Ok(CommonError::InternalFailure)
        } else if str_eq(name, "InvalidAction") {
            Ok(CommonError::InvalidAction)
        } else if str_eq(name, "InvalidClientTokenId") {
            Ok(CommonError::InvalidClientTokenId)
        } else if str_eq(name, "InvalidParameterCombination") {
            Ok(CommonError::InvalidParameterCombination)
        } else if str_eq(name, "InvalidParameterValue") {
            Ok(CommonError::InvalidParameterValue)
        } else if str_eq(name, "InvalidQueryParameter") {
            Ok(CommonError::InvalidQueryParameter)
        } else if str_eq(name, "MalformedQueryString") {
            Ok(CommonError::MalformedQueryString)
        } else if str_eq(name, "MissingAction") {
            Ok(CommonError::MissingAction)
        } else if str_eq(name, "MissingAuthenticationToken") {
            Ok(CommonError::MissingAuthenticationToken)
        } else if str_eq(name, "MissingParameter") {
            Ok(CommonError::MissingParameter)
        } else if str_eq(name, "NotAuthorized") {
            Ok(CommonError::NotAuthorized)
        } else if str_eq(name, "OptInRequired") {
            Ok(CommonError::OptInRequired)
        } else if str_eq(name, "RequestExpired") {
            Ok(CommonError::RequestExpired)
        } else if str_eq(name, "ServiceUnavailable") {
            Ok(CommonError::ServiceUnavailable)
        } else if str_eq(name, "ThrottlingException") {
            Ok(CommonError::ThrottlingException)
        } else if str_eq(name, "ValidationError") {
            Ok(CommonError::ValidationError)
        } else {
            Err(UnknownErrorName)
        }
    }

    proof fn lemma_parse_of_name(&self) {
        Self::lemma_name_of_parse(self.name());
        if let Some(kind) = Self::parse(self.name()) {
            if kind != *self {
                Self::lemma_names_told_apart(kind, *self);
            }
        }
    }

    proof fn lemma_name_of_parse(name: Seq<char>) {
    }
}

impl ToStatusCode for CommonError {
    open spec fn status(&self) -> u16 {
        match self {
            CommonError::AccessDeniedException
            | CommonError::InvalidClientTokenId
            | CommonError::MissingAuthenticationToken
            | CommonError::NotAuthorized
            | CommonError::OptInRequired => 403,
            CommonError::MalformedQueryString => 404,
            CommonError::InternalFailure => 500,
            CommonError::ServiceUnavailable => 503,
            _ => 400,
        }
    }

    fn to_status_code(&self) -> (code: StatusCode) {
        match self {
            CommonError::IncompleteSignature
            | CommonError::InvalidAction
            | CommonError::InvalidParameterCombination
            | CommonError::InvalidParameterValue
            | CommonError::InvalidQueryParameter
            | CommonError::MissingAction
            | CommonError::MissingParameter
            | CommonError::RequestExpired
            | CommonError::ThrottlingException
            | CommonError::ValidationError => status_code(400),
            CommonError::AccessDeniedException
            | CommonError::InvalidClientTokenId
            | CommonError::MissingAuthenticationToken
            | CommonError::NotAuthorized
            | CommonError::OptInRequired => status_code(403),
            CommonError::MalformedQueryString => status_code(404),
            CommonError::InternalFailure => status_code(500),
            CommonError::ServiceUnavailable => status_code(503),
        }
    }
}

/// An error kind of an action's responses: one of the action's own kinds or a
/// common kind.
#[derive(Debug, PartialEq, Eq)]
pub enum ResponseError<T: ActionError> {
    ActionError(T),
    CommonError(CommonError),
}

impl<T: ActionError> ToStatusCode for ResponseError<T> {
    open spec fn status(&self) -> u16 {
        match self {
            ResponseError::ActionError(err) => err.status(),
            ResponseError::CommonError(err) => err.status(),
        }
    }

    fn to_status_code(&self) -> (code: StatusCode) {
        match self {
            ResponseError::CommonError(err) => err.to_status_code(),
            ResponseError::ActionError(err) => err.to_status_code(),
        }
    }
}

impl<T: ActionError> ErrorKind for ResponseError<T> {
    open spec fn name(&self) -> Seq<char> {
        match self {
            ResponseError::ActionError(err) => err.name(),
            ResponseError::CommonError(err) => err.name(),
        }
    }

    /// The action's own kinds are tried first, then the common kinds.
    open spec fn parse(name: Seq<char>) -> Option<Self> {
        match T::parse(name) {
            Some(err) => Some(ResponseError::ActionError(err)),
            None => match CommonError::parse(name) {
                Some(err) => Some(ResponseError::CommonError(err)),
                None => None,
            },
        }
    }

    fn to_string(&self) -> (text: String) {
        match self {
            ResponseError::CommonError(err) => err.to_string(),
            ResponseError::ActionError(err) => err.to_string(),
        }
    }

    fn from_str(name: &str) -> (kind: Result<Self, UnknownErrorName>) {
        match T::from_str(name) {
            Ok(err) => Ok(ResponseError::ActionError(err)),
            Err(_) => match CommonError::from_str(name) {
                Ok(err) => Ok(ResponseError::CommonError(err)),
                Err(_) => Err(UnknownErrorName),
            },
        }
    }

    proof fn lemma_parse_of_name(&self) {
        match self {
            ResponseError::ActionError(err) => {
                err.lemma_parse_of_name();
            },
            ResponseError::CommonError(err) => {
                T::lemma_no_common_name(*err);
                err.lemma_parse_of_name();
            },
        }
    }

    proof fn lemma_name_of_parse(name: Seq<char>) {
        T::lemma_name_of_parse(name);
        CommonError::lemma_name_of_parse(name);
    }
}

/// Parsing the name of a kind and resolving the status of what was parsed
/// gives the status of that kind: the table of statuses is reached by name.
pub proof fn lemma_status_by_name<K: ErrorKind>(kind: K)
    ensures
        K::parse(kind.name()) matches Some(parsed) && parsed == kind && parsed.status()
            == kind.status(),
{
    kind.lemma_parse_of_name();
}

/// The fixed table of the common kinds. The kinds about access and
/// authorization map to 403, the malformed query to 404, the internal failure
/// to 500, the unavailable service to 503, and every other kind to 400.
pub proof fn lemma_common_status_table(kind: CommonError)
    ensures
        kind.status() == 403 <==> (kind == CommonError::AccessDeniedException || kind
            == CommonError::InvalidClientTokenId || kind
            == CommonError::MissingAuthenticationToken || kind == CommonError::NotAuthorized
            || kind == CommonError::OptInRequired),
        kind.status() == 404 <==> kind == CommonError::MalformedQueryString,
        kind.status() == 500 <==> kind == CommonError::InternalFailure,
        kind.status() == 503 <==> kind == CommonError::ServiceUnavailable,
        kind.status() == 400 <==> !(kind.status() == 403 || kind.status() == 404 || kind.status()
            == 500 || kind.status() == 503),
{
}

} // verus!
