//! The action that resets the password of a user: its request, its rule of validity and its
//! error kinds.

use super::configs::Config;
use super::errors::{
    told_apart, ActionError, CommonError, ErrorKind, ToStatusCode, UnknownErrorName,
};
use super::responses::{
    to_json_response, ActionRequest, Response, ToActionName, ToResponse,
};
use crate::common::{blank, field_view, is_blank, str_eq};
use crate::http::status_code;
use crate::templates::{
    field_value, fields_view, lemma_unnamed_field_has_no_value, push_text_field, text_field, Field,
    FieldView, Templates,
};
use hyper::StatusCode;
use std::collections::HashMap;
use vstd::prelude::*;

verus! {

pub const ADMIN_RESET_USER_PASSWORD_NAME: &'static str = "AdminResetUserPassword";

pub const ADMIN_RESET_USER_PASSWORD_ACTION_NAME: &'static str =
    "AWSCognitoIdentityProviderService.AdminResetUserPassword";

/// The error kinds of AdminResetUserPassword.
#[derive(Clone, Copy, Debug, PartialEq, Eq, Structural)]
pub enum AdminResetUserPasswordError {
    InternalErrorException,
    InvalidEmailRoleAccessPolicyException,
    InvalidLambdaResponseException,
    InvalidParameterException,
    InvalidSmsRoleAccessPolicyException,
    InvalidSmsRoleTrustRelationshipException,
    LimitExceededException,
    NotAuthorizedException,
    ResourceNotFoundException,
    TooManyRequestsException,
    UnexpectedLambdaException,
    UserLambdaValidationException,
    UserNotFoundException,
}

impl AdminResetUserPasswordError {
    /// The name of this kind as it stands in an error body.
    pub fn as_str(&self) -> (name: &'static str)
        ensures
            name@ == self.name(),
    {
        match self {
            AdminResetUserPasswordError::InternalErrorException => "InternalErrorException",
            AdminResetUserPasswordError::InvalidEmailRoleAccessPolicyException => {
                "InvalidEmailRoleAccessPolicyException"
            },
            AdminResetUserPasswordError::InvalidLambdaResponseException => {
                "InvalidLambdaResponseException"
            },
            AdminResetUserPasswordError::InvalidParameterException => "InvalidParameterException",
            AdminResetUserPasswordError::InvalidSmsRoleAccessPolicyException => {
                "InvalidSmsRoleAccessPolicyException"
            },
            AdminResetUserPasswordError::InvalidSmsRoleTrustRelationshipException => {
                "InvalidSmsRoleTrustRelationshipException"
            },
            AdminResetUserPasswordError::LimitExceededException => "LimitExceededException",
            AdminResetUserPasswordError::NotAuthorizedException => "NotAuthorizedException",
            AdminResetUserPasswordError::ResourceNotFoundException => "ResourceNotFoundException",
            AdminResetUserPasswordError::TooManyRequestsException => "TooManyRequestsException",
            AdminResetUserPasswordError::UnexpectedLambdaException => "UnexpectedLambdaException",
            AdminResetUserPasswordError::UserLambdaValidationException => {
                "UserLambdaValidationException"
            },
            AdminResetUserPasswordError::UserNotFoundException => "UserNotFoundException",
        }
    }

    /// Two different kinds carry names that differ in their length, their first
    /// character or their eighth: no two kinds share a name.
    pub proof fn lemma_names_told_apart(
        first: AdminResetUserPasswordError,
        second: AdminResetUserPasswordError,
    )
        requires
            first != second,
        ensures
            told_apart(first.name(), second.name()),
    {
        reveal_strlit("InternalErrorException");
        reveal_strlit("InvalidEmailRoleAccessPolicyException");
        reveal_strlit("InvalidLambdaResponseException");
        reveal_strlit("InvalidParameterException");
        reveal_strlit("InvalidSmsRoleAccessPolicyException");
        reveal_strlit("InvalidSmsRoleTrustRelationshipException");
        reveal_strlit("LimitExceededException");
        reveal_strlit("NotAuthorizedException");
        reveal_strlit("ResourceNotFoundException");
        reveal_strlit("TooManyRequestsException");
        reveal_strlit("UnexpectedLambdaException");
        reveal_strlit("UserLambdaValidationException");
        reveal_strlit("UserNotFoundException");
    }

    /// The name of a kind of this action differs from the name of every common
    /// kind in its length, its first character or its eighth.
    pub proof fn lemma_told_apart_from_common(
        kind: AdminResetUserPasswordError,
        common: CommonError,
    )
        ensures
            told_apart(kind.name(), common.name()),
    {
        reveal_strlit("AccessDeniedException");
        reveal_strlit("IncompleteSignature");
        reveal_strlit("InternalErrorException");
        reveal_strlit("InternalFailure");
        reveal_strlit("InvalidAction");
        reveal_strlit("InvalidClientTokenId");
        reveal_strlit("InvalidEmailRoleAccessPolicyException");
        reveal_strlit("InvalidLambdaResponseException");
        reveal_strlit("InvalidParameterCombination");
        reveal_strlit("InvalidParameterException");
        reveal_strlit("InvalidParameterValue");
        reveal_strlit("InvalidQueryParameter");
        reveal_strlit("InvalidSmsRoleAccessPolicyException");
        reveal_strlit("InvalidSmsRoleTrustRelationshipException");
        reveal_strlit("LimitExceededException");
        reveal_strlit("MalformedQueryString");
        reveal_strlit("MissingAction");
        reveal_strlit("MissingAuthenticationToken");
        reveal_strlit("MissingParameter");
        reveal_strlit("NotAuthorized");
        reveal_strlit("NotAuthorizedException");
        reveal_strlit("OptInRequired");
        reveal_strlit("RequestExpired");
        reveal_strlit("ResourceNotFoundException");
        reveal_strlit("ServiceUnavailable");
        reveal_strlit("ThrottlingException");
        reveal_strlit("TooManyRequestsException");
        reveal_strlit("UnexpectedLambdaException");
        reveal_strlit("UserLambdaValidationException");
        reveal_strlit("UserNotFoundException");
        reveal_strlit("ValidationError");
    }
}

impl ToStatusCode for AdminResetUserPasswordError {
    open spec fn status(&self) -> u16 {
        match self {
            AdminResetUserPasswordError::InternalErrorException => 500,
            _ => 400,
        }
    }

    fn to_status_code(&self) -> (code: StatusCode) {
        match self {
            AdminResetUserPasswordError::InvalidEmailRoleAccessPolicyException
            | AdminResetUserPasswordError::InvalidParameterException
            | AdminResetUserPasswordError::InvalidLambdaResponseException
            | AdminResetUserPasswordError::InvalidSmsRoleAccessPolicyException
            | AdminResetUserPasswordError::InvalidSmsRoleTrustRelationshipException
            | AdminResetUserPasswordError::NotAuthorizedException
            | AdminResetUserPasswordError::LimitExceededException
            | AdminResetUserPasswordError::ResourceNotFoundException
            | AdminResetUserPasswordError::TooManyRequestsException
            | AdminResetUserPasswordError::UnexpectedLambdaException
            | AdminResetUserPasswordError::UserLambdaValidationException
            | AdminResetUserPasswordError::UserNotFoundException => status_code(400),
            _ => status_code(500),
        }
    }
}

impl ErrorKind for AdminResetUserPasswordError {
    open spec fn name(&self) -> Seq<char> {
        match self {
            AdminResetUserPasswordError::InternalErrorException => "InternalErrorException"@,
            AdminResetUserPasswordError::InvalidEmailRoleAccessPolicyException => {
                "InvalidEmailRoleAccessPolicyException"@
            },
            AdminResetUserPasswordError::InvalidLambdaResponseException => {
                "InvalidLambdaResponseException"@
            },
            AdminResetUserPasswordError::InvalidParameterException => "InvalidParameterException"@,
            AdminResetUserPasswordError::InvalidSmsRoleAccessPolicyException => {
                "InvalidSmsRoleAccessPolicyException"@
            },
            AdminResetUserPasswordError::InvalidSmsRoleTrustRelationshipException => {
                "InvalidSmsRoleTrustRelationshipException"@
            },
            AdminResetUserPasswordError::LimitExceededException => "LimitExceededException"@,
            AdminResetUserPasswordError::NotAuthorizedException => "NotAuthorizedException"@,
            AdminResetUserPasswordError::ResourceNotFoundException => "ResourceNotFoundException"@,
            AdminResetUserPasswordError::TooManyRequestsException => "TooManyRequestsException"@,
            AdminResetUserPasswordError::UnexpectedLambdaException => "UnexpectedLambdaException"@,
            AdminResetUserPasswordError::UserLambdaValidationException => {
                "UserLambdaValidationException"@
            },
            AdminResetUserPasswordError::UserNotFoundException => "UserNotFoundException"@,
        }
    }

    open spec fn parse(name: Seq<char>) -> Option<Self> {
        if name == "InternalErrorException"@ {
            Some(AdminResetUserPasswordError::InternalErrorException)
        } else if name == "InvalidEmailRoleAccessPolicyException"@ {
            Some(AdminResetUserPasswordError::InvalidEmailRoleAccessPolicyException)
        } else if name == "InvalidLambdaResponseException"@ {
            Some(AdminResetUserPasswordError::InvalidLambdaResponseException)
        } else if name == "InvalidParameterException"@ {
            Some(AdminResetUserPasswordError::InvalidParameterException)
        } else if name == "InvalidSmsRoleAccessPolicyException"@ {
            Some(AdminResetUserPasswordError::InvalidSmsRoleAccessPolicyException)
        } else if name == "InvalidSmsRoleTrustRelationshipException"@ {
            Some(AdminResetUserPasswordError::InvalidSmsRoleTrustRelationshipException)
        } else if name == "LimitExceededException"@ {
            Some(AdminResetUserPasswordError::LimitExceededException)
        } else if name == "NotAuthorizedException"@ {
            Some(AdminResetUserPasswordError::NotAuthorizedException)
        } else if name == "ResourceNotFoundException"@ {
            Some(AdminResetUserPasswordError::ResourceNotFoundException)
        } else if name == "TooManyRequestsException"@ {
            Some(AdminResetUserPasswordError::TooManyRequestsException)
        } else if name == "UnexpectedLambdaException"@ {
            Some(AdminResetUserPasswordError::UnexpectedLambdaException)
        } else if name == "UserLambdaValidationException"@ {
            Some(AdminResetUserPasswordError::UserLambdaValidationException)
        } else if name == "UserNotFoundException"@ {
            Some(AdminResetUserPasswordError::UserNotFoundException)
        } else {
            None
        }
    }

    fn to_string(&self) -> (text: String) {
        self.as_str().to_owned()
    }

    fn from_str(name: &str) -> (kind: Result<Self, UnknownErrorName>) {
        if str_eq(name, "InternalErrorException") {
            Ok(AdminResetUserPasswordError::InternalErrorException)
        } else if str_eq(name, "InvalidEmailRoleAccessPolicyException") {
            Ok(AdminResetUserPasswordError::InvalidEmailRoleAccessPolicyException)
        } else if str_eq(name, "InvalidLambdaResponseException") {
            Ok(AdminResetUserPasswordError::InvalidLambdaResponseException)
        } else if str_eq(name, "InvalidParameterException") {
            Ok(AdminResetUserPasswordError::InvalidParameterException)
        } else if str_eq(name, "InvalidSmsRoleAccessPolicyException") {
            Ok(AdminResetUserPasswordError::InvalidSmsRoleAccessPolicyException)
        } else if str_eq(name, "InvalidSmsRoleTrustRelationshipException") {
            Ok(AdminResetUserPasswordError::InvalidSmsRoleTrustRelationshipException)
        } else if str_eq(name, "LimitExceededException") {
            Ok(AdminResetUserPasswordError::LimitExceededException)
        } else if str_eq(name, "NotAuthorizedException") {
            Ok(AdminResetUserPasswordError::NotAuthorizedException)
        } else if str_eq(name, "ResourceNotFoundException") {
            Ok(AdminResetUserPasswordError::ResourceNotFoundException)
        } else if str_eq(name, "TooManyRequestsException") {
            Ok(AdminResetUserPasswordError::TooManyRequestsException)
        } else if str_eq(name, "UnexpectedLambdaException") {
            Ok(AdminResetUserPasswordError::UnexpectedLambdaException)
        } else if str_eq(name, "UserLambdaValidationException") {
            Ok(AdminResetUserPasswordError::UserLambdaValidationException)
        } else if str_eq(name, "UserNotFoundException") {
            Ok(AdminResetUserPasswordError::UserNotFoundException)
        } else {
            Err(UnknownErrorName)
        }
    }

    proof fn lemma_parse_of_name(&self) {
        Self::lemma_name_of_parse(self.name());
        if let Some(kind) = Self::parse(self.name()) {
            if kind != *self {
                Self::lemma_names_told_apart(kind, *self);
            }
        }
    }

    proof fn lemma_name_of_parse(name: Seq<char>) {
    }
}

impl ActionError for AdminResetUserPasswordError {
    proof fn lemma_no_common_name(common: CommonError) {
        Self::lemma_name_of_parse(common.name());
        if let Some(kind) = Self::parse(common.name()) {
            Self::lemma_told_apart_from_common(kind, common);
        }
    }
}

/// The name of a kind parses back to the kind, and the kind maps to 500 where
/// it is an internal error of the service and to 400 otherwise.
pub proof fn lemma_status_table(kind: AdminResetUserPasswordError)
    ensures
        kind.status() == if kind == AdminResetUserPasswordError::InternalErrorException {
            500u16
        } else {
            400u16
        },
        AdminResetUserPasswordError::parse(kind.name()) == Some(kind),
{
    kind.lemma_parse_of_name();
}

/// A decoded request of AdminResetUserPassword. Every field may be absent.
#[derive(Debug)]
pub struct AdminResetUserPasswordRequest {
    pub client_metadata: Option<HashMap<String, String>>,
    pub username: Option<String>,
    pub user_pool_id: Option<String>,
}

impl Default for AdminResetUserPasswordRequest {
    /// The request with every field absent.
    fn default() -> (request: Self)
        ensures
            request.client_metadata is None,
            request.username is None,
            request.user_pool_id is None,
    {
        AdminResetUserPasswordRequest {
            client_metadata: None,
            username: None,
            user_pool_id: None,
        }
    }
}

/// A request is valid where it names a user and a user pool, neither blank.
pub open spec fn valid(request: &AdminResetUserPasswordRequest) -> bool {
    !blank(field_view(&request.username)) && !blank(field_view(&request.user_pool_id))
}

/// Validates request.
pub fn valid_request(request: &AdminResetUserPasswordRequest) -> (ok: bool)
    ensures
        ok == valid(request),
{
    !is_blank(&request.username) && !is_blank(&request.user_pool_id)
}

/// A request whose user name or user pool is absent or empty is not valid.
pub proof fn lemma_blank_field_is_invalid(request: &AdminResetUserPasswordRequest)
    requires
        blank(field_view(&request.username)) || blank(field_view(&request.user_pool_id)),
    ensures
        !valid(request),
{
}

impl ToActionName for AdminResetUserPasswordRequest {
    open spec fn action_name() -> Seq<char> {
        ADMIN_RESET_USER_PASSWORD_NAME@
    }

    fn to_action_name() -> (name: &'static str) {
        ADMIN_RESET_USER_PASSWORD_NAME
    }
}

impl ActionRequest for AdminResetUserPasswordRequest {
    type E = AdminResetUserPasswordError;

    open spec fn valid(&self) -> bool {
        valid(self)
    }

    /// Overrides of this action may be scoped by user pool.
    open spec fn target(&self) -> Option<Seq<char>> {
        field_view(&self.user_pool_id)
    }

    /// The user name and the user pool. The client metadata is a map, which has
    /// no order in which its entries could be written: it is not offered.
    open spec fn fields(&self) -> Seq<FieldView> {
        text_field("Username"@, field_view(&self.username))
            + text_field("UserPoolId"@, field_view(&self.user_pool_id))
    }

    fn validate(&self) -> (ok: bool) {
        valid_request(self)
    }

    fn target_key(&self) -> (target: Option<&String>) {
        self.user_pool_id.as_ref()
    }

    fn to_fields(&self) -> (fields: Vec<Field>) {
        let mut fields: Vec<Field> = Vec::new();
        assert(fields_view(fields@) =~= Seq::empty());
        push_text_field(&mut fields, "Username", &self.username);
        push_text_field(&mut fields, "UserPoolId", &self.user_pool_id);
        fields
    }
}

impl ToResponse for AdminResetUserPasswordRequest {
    fn to_response(&self, config: &Config, templates: &Templates) -> (response: Response) {
        to_json_response(self, config, templates)
    }
}

/// A place that names the client metadata finds no value, whatever the request
/// holds: a template that names it renders for no request.
pub proof fn lemma_client_metadata_not_offered(request: &AdminResetUserPasswordRequest)
    ensures
        field_value(request.fields(), "ClientMetadata"@) is None,
{
    reveal_strlit("ClientMetadata");
    reveal_strlit("Username");
    reveal_strlit("UserPoolId");
    let fields = request.fields();
    assert forall|i: int| 0 <= i < fields.len() implies (#[trigger] fields[i]).name
        != "ClientMetadata"@ by {
        assert(fields[i].name.len() != "ClientMetadata"@.len());
    }
    lemma_unnamed_field_has_no_value(fields, "ClientMetadata"@);
}

} // verus!
