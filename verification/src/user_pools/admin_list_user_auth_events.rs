//! The action that lists the sign-in events of a user: its request, its rule of validity and its
//! error kinds.

use super::configs::Config;
use super::errors::{
    told_apart, ActionError, CommonError, ErrorKind, ToStatusCode, UnknownErrorName,
};
use super::responses::{
    to_json_response, ActionRequest, Response, ToActionName, ToResponse,
};
use crate::common::{blank, field_view, is_blank, str_eq};
use crate::http::status_code;
use crate::templates::{
    fields_view, number_field, push_number_field, push_text_field, text_field, Field, FieldView,
    Templates,
};
use hyper::StatusCode;
use vstd::prelude::*;

verus! {

pub const ADMIN_LIST_USER_AUTH_EVENTS_NAME: &'static str = "AdminListUserAuthEvents";

pub const ADMIN_LIST_USER_AUTH_EVENTS_ACTION_NAME: &'static str =
    "AWSCognitoIdentityProviderService.AdminListUserAuthEvents";

/// The error kinds of AdminListUserAuthEvents.
#[derive(Clone, Copy, Debug, PartialEq, Eq, Structural)]
pub enum AdminListUserAuthEventsError {
    InternalErrorException,
    InvalidParameterException,
    NotAuthorizedException,
    ResourceNotFoundException,
    TooManyRequestsException,
    UserNotFoundException,
    UserPoolAddOnNotEnabledException,
}

impl AdminListUserAuthEventsError {
    /// The name of this kind as it stands in an error body.
    pub fn as_str(&self) -> (name: &'static str)
        ensures
            name@ == self.name(),
    {
        match self {
            AdminListUserAuthEventsError::InternalErrorException => "InternalErrorException",
            AdminListUserAuthEventsError::InvalidParameterException => "InvalidParameterException",
            AdminListUserAuthEventsError::NotAuthorizedException => "NotAuthorizedException",
            AdminListUserAuthEventsError::ResourceNotFoundException => "ResourceNotFoundException",
            AdminListUserAuthEventsError::TooManyRequestsException => "TooManyRequestsException",
            AdminListUserAuthEventsError::UserNotFoundException => "UserNotFoundException",
            AdminListUserAuthEventsError::UserPoolAddOnNotEnabledException => {
                "UserPoolAddOnNotEnabledException"
            },
        }
    }

    /// Two different kinds carry names that differ in their length, their first
    /// character or their eighth: no two kinds share a name.
    pub proof fn lemma_names_told_apart(
        first: AdminListUserAuthEventsError,
        second: AdminListUserAuthEventsError,
    )
        requires
            first != second,
        ensures
            told_apart(first.name(), second.name()),
    {
        reveal_strlit("InternalErrorException");
        reveal_strlit("InvalidParameterException");
        reveal_strlit("NotAuthorizedException");
        reveal_strlit("ResourceNotFoundException");
        reveal_strlit("TooManyRequestsException");
        reveal_strlit("UserNotFoundException");
        reveal_strlit("UserPoolAddOnNotEnabledException");
    }

    /// The name of a kind of this action differs from the name of every common
    /// kind in its length, its first character or its eighth.
    pub proof fn lemma_told_apart_from_common(
        kind: AdminListUserAuthEventsError,
        common: CommonError,
    )
        ensures
            told_apart(kind.name(), common.name()),
    {
        reveal_strlit("AccessDeniedException");
        reveal_strlit("IncompleteSignature");
        reveal_strlit("InternalErrorException");
        reveal_strlit("InternalFailure");
        reveal_strlit("InvalidAction");
        reveal_strlit("InvalidClientTokenId");
        reveal_strlit("InvalidParameterCombination");
        reveal_strlit("InvalidParameterException");
        reveal_strlit("InvalidParameterValue");
        reveal_strlit("InvalidQueryParameter");
        reveal_strlit("MalformedQueryString");
        reveal_strlit("MissingAction");
        reveal_strlit("MissingAuthenticationToken");
        reveal_strlit("MissingParameter");
        reveal_strlit("NotAuthorized");
        reveal_strlit("NotAuthorizedException");
        reveal_strlit("OptInRequired");
        reveal_strlit("RequestExpired");
        reveal_strlit("ResourceNotFoundException");
        reveal_strlit("ServiceUnavailable");
        reveal_strlit("ThrottlingException");
        reveal_strlit("TooManyRequestsException");
        reveal_strlit("UserNotFoundException");
        reveal_strlit("UserPoolAddOnNotEnabledException");
        reveal_strlit("ValidationError");
    }
}

impl ToStatusCode for AdminListUserAuthEventsError {
    open spec fn status(&self) -> u16 {
        match self {
            AdminListUserAuthEventsError::InternalErrorException => 500,
            _ => 400,
        }
    }

    fn to_status_code(&self) -> (code: StatusCode) {
        match self {
            AdminListUserAuthEventsError::InvalidParameterException
            | AdminListUserAuthEventsError::NotAuthorizedException
            | AdminListUserAuthEventsError::ResourceNotFoundException
            | AdminListUserAuthEventsError::TooManyRequestsException
            | AdminListUserAuthEventsError::UserNotFoundException
            | AdminListUserAuthEventsError::UserPoolAddOnNotEnabledException => status_code(400),
            _ => status_code(500),
        }
    }
}

impl ErrorKind for AdminListUserAuthEventsError {
    open spec fn name(&self) -> Seq<char> {
        match self {
            AdminListUserAuthEventsError::InternalErrorException => "InternalErrorException"@,
            AdminListUserAuthEventsError::InvalidParameterException => "InvalidParameterException"@,
            AdminListUserAuthEventsError::NotAuthorizedException => "NotAuthorizedException"@,
            AdminListUserAuthEventsError::ResourceNotFoundException => "ResourceNotFoundException"@,
            AdminListUserAuthEventsError::TooManyRequestsException => "TooManyRequestsException"@,
            AdminListUserAuthEventsError::UserNotFoundException => "UserNotFoundException"@,
            AdminListUserAuthEventsError::UserPoolAddOnNotEnabledException => {
                "UserPoolAddOnNotEnabledException"@
            },
        }
    }

    open spec fn parse(name: Seq<char>) -> Option<Self> {
        if name == "InternalErrorException"@ {
            Some(AdminListUserAuthEventsError::InternalErrorException)
        } else if name == "InvalidParameterException"@ {
            Some(AdminListUserAuthEventsError::InvalidParameterException)
        } else if name == "NotAuthorizedException"@ {
            Some(AdminListUserAuthEventsError::NotAuthorizedException)
        } else if name == "ResourceNotFoundException"@ {
            Some(AdminListUserAuthEventsError::ResourceNotFoundException)
        } else if name == "TooManyRequestsException"@ {
            Some(AdminListUserAuthEventsError::TooManyRequestsException)
        } else if name == "UserNotFoundException"@ {
            Some(AdminListUserAuthEventsError::UserNotFoundException)
        } else if name == "UserPoolAddOnNotEnabledException"@ {
            Some(AdminListUserAuthEventsError::UserPoolAddOnNotEnabledException)
        } else {
            None
        }
    }

    fn to_string(&self) -> (text: String) {
        self.as_str().to_owned()
    }

    fn from_str(name: &str) -> (kind: Result<Self, UnknownErrorName>) {
        if str_eq(name, "InternalErrorException") {
            Ok(AdminListUserAuthEventsError::InternalErrorException)
        } else if str_eq(name, "InvalidParameterException") {
            Ok(AdminListUserAuthEventsError::InvalidParameterException)
        } else if str_eq(name, "NotAuthorizedException") {
            Ok(AdminListUserAuthEventsError::NotAuthorizedException)
        } else if str_eq(name, "ResourceNotFoundException") {
            Ok(AdminListUserAuthEventsError::ResourceNotFoundException)
        } else if str_eq(name, "TooManyRequestsException") {
            Ok(AdminListUserAuthEventsError::TooManyRequestsException)
        } else if str_eq(name, "UserNotFoundException") {
            Ok(AdminListUserAuthEventsError::UserNotFoundException)
        } else if str_eq(name, "UserPoolAddOnNotEnabledException") {
            Ok(AdminListUserAuthEventsError::UserPoolAddOnNotEnabledException)
        } else {
            Err(UnknownErrorName)
        }
    }

    proof fn lemma_parse_of_name(&self) {
        Self::lemma_name_of_parse(self.name());
        if let Some(kind) = Self::parse(self.name()) {
            if kind != *self {
                Self::lemma_names_told_apart(kind, *self);
            }
        }
    }

    proof fn lemma_name_of_parse(name: Seq<char>) {
    }
}

impl ActionError for AdminListUserAuthEventsError {
    proof fn lemma_no_common_name(common: CommonError) {
        Self::lemma_name_of_parse(common.name());
        if let Some(kind) = Self::parse(common.name()) {
            Self::lemma_told_apart_from_common(kind, common);
        }
    }
}

/// The name of a kind parses back to the kind, and the kind maps to 500 where
/// it is an internal error of the service and to 400 otherwise.
pub proof fn lemma_status_table(kind: AdminListUserAuthEventsError)
    ensures
        kind.status() == if kind == AdminListUserAuthEventsError::InternalErrorException {
            500u16
        } else {
            400u16
        },
        AdminListUserAuthEventsError::parse(kind.name()) == Some(kind),
{
    kind.lemma_parse_of_name();
}

/// A decoded request of AdminListUserAuthEvents. Every field may be absent.
#[derive(Debug)]
pub struct AdminListUserAuthEventsRequest {
    pub max_results: Option<u8>,
    pub next_token: Option<String>,
    pub username: Option<String>,
    pub user_pool_id: Option<String>,
}

impl Default for AdminListUserAuthEventsRequest {
    /// The request with every field absent.
    fn default() -> (request: Self)
        ensures
            request.max_results is None,
            request.next_token is None,
            request.username is None,
            request.user_pool_id is None,
    {
        AdminListUserAuthEventsRequest {
            max_results: None,
            next_token: None,
            username: None,
            user_pool_id: None,
        }
    }
}

/// A request is valid where it names a user and a user pool, neither blank.
pub open spec fn valid(request: &AdminListUserAuthEventsRequest) -> bool {
    !blank(field_view(&request.username)) && !blank(field_view(&request.user_pool_id))
}

/// Validates request.
pub fn valid_request(request: &AdminListUserAuthEventsRequest) -> (ok: bool)
    ensures
        ok == valid(request),
{
    !is_blank(&request.username) && !is_blank(&request.user_pool_id)
}

/// A request whose user name or user pool is absent or empty is not valid.
pub proof fn lemma_blank_field_is_invalid(request: &AdminListUserAuthEventsRequest)
    requires
        blank(field_view(&request.username)) || blank(field_view(&request.user_pool_id)),
    ensures
        !valid(request),
{
}

impl ToActionName for AdminListUserAuthEventsRequest {
    open spec fn action_name() -> Seq<char> {
        ADMIN_LIST_USER_AUTH_EVENTS_NAME@
    }

    fn to_action_name() -> (name: &'static str) {
        ADMIN_LIST_USER_AUTH_EVENTS_NAME
    }
}

impl ActionRequest for AdminListUserAuthEventsRequest {
    type E = AdminListUserAuthEventsError;

    open spec fn valid(&self) -> bool {
        valid(self)
    }

    /// Overrides of this action may be scoped by user pool.
    open spec fn target(&self) -> Option<Seq<char>> {
        field_view(&self.user_pool_id)
    }

    open spec fn fields(&self) -> Seq<FieldView> {
        number_field("MaxResults"@, self.max_results)
            + text_field("NextToken"@, field_view(&self.next_token))
            + text_field("Username"@, field_view(&self.username))
            + text_field("UserPoolId"@, field_view(&self.user_pool_id))
    }

    fn validate(&self) -> (ok: bool) {
        valid_request(self)
    }

    fn target_key(&self) -> (target: Option<&String>) {
        self.user_pool_id.as_ref()
    }

    fn to_fields(&self) -> (fields: Vec<Field>) {
        let mut fields: Vec<Field> = Vec::new();
        assert(fields_view(fields@) =~= Seq::empty());
        push_number_field(&mut fields, "MaxResults", &self.max_results);
        push_text_field(&mut fields, "NextToken", &self.next_token);
        push_text_field(&mut fields, "Username", &self.username);
        push_text_field(&mut fields, "UserPoolId", &self.user_pool_id);
        fields
    }
}

impl ToResponse for AdminListUserAuthEventsRequest {
    fn to_response(&self, config: &Config, templates: &Templates) -> (response: Response) {
        to_json_response(self, config, templates)
    }
}

} // verus!
