//! The action that sets the MFA options of a user: its request, its rule of validity and its
//! error kinds.

use super::configs::Config;
use super::data_types::mfa_option_type::{
    optional_options_text, optional_options_to_json, MFAOptionType,
};
use super::errors::{
    told_apart, ActionError, CommonError, ErrorKind, ToStatusCode, UnknownErrorName,
};
use super::responses::{
    to_json_response, ActionRequest, Response, ToActionName, ToResponse,
};
use crate::common::{blank, field_view, is_blank, str_eq};
use crate::http::status_code;
use crate::templates::{
    fields_view, push_text_field, text_field, Field, FieldView, Templates,
};
use hyper::StatusCode;
use vstd::prelude::*;

verus! {

pub const ADMIN_SET_USER_SETTINGS_NAME: &'static str = "AdminSetUserSettings";

pub const ADMIN_SET_USER_SETTINGS_ACTION_NAME: &'static str =
    "AWSCognitoIdentityProviderService.AdminSetUserSettings";

/// The error kinds of AdminSetUserSettings.
#[derive(Clone, Copy, Debug, PartialEq, Eq, Structural)]
pub enum AdminSetUserSettingsError {
    InternalErrorException,
    InvalidLambdaResponseException,
    InvalidParameterException,
    InvalidSmsRoleAccessPolicyException,
    InvalidSmsRoleTrustRelationshipException,
    InvalidUserPoolConfigurationException,
    MFAMethodNotFoundException,
    NotAuthorizedException,
    PasswordResetRequiredException,
    ResourceNotFoundException,
    TooManyRequestsException,
    UnexpectedLambdaException,
    UserLambdaValidationException,
    UserNotConfirmedException,
    UserNotFoundException,
}

impl AdminSetUserSettingsError {
    /// The name of this kind as it stands in an error body.
    pub fn as_str(&self) -> (name: &'static str)
        ensures
            name@ == self.name(),
    {
        match self {
            AdminSetUserSettingsError::InternalErrorException => "InternalErrorException",
            AdminSetUserSettingsError::InvalidLambdaResponseException => {
                "InvalidLambdaResponseException"
            },
            AdminSetUserSettingsError::InvalidParameterException => "InvalidParameterException",
            AdminSetUserSettingsError::InvalidSmsRoleAccessPolicyException => {
                "InvalidSmsRoleAccessPolicyException"
            },
            AdminSetUserSettingsError::InvalidSmsRoleTrustRelationshipException => {
                "InvalidSmsRoleTrustRelationshipException"
            },
            AdminSetUserSettingsError::InvalidUserPoolConfigurationException => {
                "InvalidUserPoolConfigurationException"
            },
            AdminSetUserSettingsError::MFAMethodNotFoundException => "MFAMethodNotFoundException",
            AdminSetUserSettingsError::NotAuthorizedException => "NotAuthorizedException",
            AdminSetUserSettingsError::PasswordResetRequiredException => {
                "PasswordResetRequiredException"
            },
            AdminSetUserSettingsError::ResourceNotFoundException => "ResourceNotFoundException",
            AdminSetUserSettingsError::TooManyRequestsException => "TooManyRequestsException",
            AdminSetUserSettingsError::UnexpectedLambdaException => "UnexpectedLambdaException",
            AdminSetUserSettingsError::UserLambdaValidationException => {
                "UserLambdaValidationException"
            },
            AdminSetUserSettingsError::UserNotConfirmedException => "UserNotConfirmedException",
            AdminSetUserSettingsError::UserNotFoundException => "UserNotFoundException",
        }
    }

    /// Two different kinds carry names that differ in their length, their first
    /// character or their eighth: no two kinds share a name.
    pub proof fn lemma_names_told_apart(
        first: AdminSetUserSettingsError,
        second: AdminSetUserSettingsError,
    )
        requires
            first != second,
        ensures
            told_apart(first.name(), second.name()),
    {
        reveal_strlit("InternalErrorException");
        reveal_strlit("InvalidLambdaResponseException");
        reveal_strlit("InvalidParameterException");
        reveal_strlit("InvalidSmsRoleAccessPolicyException");
        reveal_strlit("InvalidSmsRoleTrustRelationshipException");
        reveal_strlit("InvalidUserPoolConfigurationException");
        reveal_strlit("MFAMethodNotFoundException");
        reveal_strlit("NotAuthorizedException");
        reveal_strlit("PasswordResetRequiredException");
        reveal_strlit("ResourceNotFoundException");
        reveal_strlit("TooManyRequestsException");
        reveal_strlit("UnexpectedLambdaException");
        reveal_strlit("UserLambdaValidationException");
        reveal_strlit("UserNotConfirmedException");
        reveal_strlit("UserNotFoundException");
    }

    /// The name of a kind of this action differs from the name of every common
    /// kind in its length, its first character or its eighth.
    pub proof fn lemma_told_apart_from_common(kind: AdminSetUserSettingsError, common: CommonError)
        ensures
            told_apart(kind.name(), common.name()),
    {
        reveal_strlit("AccessDeniedException");
        reveal_strlit("IncompleteSignature");
        reveal_strlit("InternalErrorException");
        reveal_strlit("InternalFailure");
        reveal_strlit("InvalidAction");
        reveal_strlit("InvalidClientTokenId");
        reveal_strlit("InvalidLambdaResponseException");
        reveal_strlit("InvalidParameterCombination");
        reveal_strlit("InvalidParameterException");
        reveal_strlit("InvalidParameterValue");
        reveal_strlit("InvalidQueryParameter");
        reveal_strlit("InvalidSmsRoleAccessPolicyException");
        reveal_strlit("InvalidSmsRoleTrustRelationshipException");
        reveal_strlit("InvalidUserPoolConfigurationException");
        reveal_strlit("MFAMethodNotFoundException");
        reveal_strlit("MalformedQueryString");
        reveal_strlit("MissingAction");
        reveal_strlit("MissingAuthenticationToken");
        reveal_strlit("MissingParameter");
        reveal_strlit("NotAuthorized");
        reveal_strlit("NotAuthorizedException");
        reveal_strlit("OptInRequired");
        reveal_strlit("PasswordResetRequiredException");
        reveal_strlit("RequestExpired");
        reveal_strlit("ResourceNotFoundException");
        reveal_strlit("ServiceUnavailable");
        reveal_strlit("ThrottlingException");
        reveal_strlit("TooManyRequestsException");
        reveal_strlit("UnexpectedLambdaException");
        reveal_strlit("UserLambdaValidationException");
        reveal_strlit("UserNotConfirmedException");
        reveal_strlit("UserNotFoundException");
        reveal_strlit("ValidationError");
    }
}

impl ToStatusCode for AdminSetUserSettingsError {
    open spec fn status(&self) -> u16 {
        match self {
            AdminSetUserSettingsError::InternalErrorException => 500,
            _ => 400,
        }
    }

    fn to_status_code(&self) -> (code: StatusCode) {
        match self {
            AdminSetUserSettingsError::InvalidParameterException
            | AdminSetUserSettingsError::InvalidLambdaResponseException
            | AdminSetUserSettingsError::InvalidSmsRoleAccessPolicyException
            | AdminSetUserSettingsError::InvalidSmsRoleTrustRelationshipException
            | AdminSetUserSettingsError::InvalidUserPoolConfigurationException
            | AdminSetUserSettingsError::MFAMethodNotFoundException
            | AdminSetUserSettingsError::NotAuthorizedException
            | AdminSetUserSettingsError::PasswordResetRequiredException
            | AdminSetUserSettingsError::ResourceNotFoundException
            | AdminSetUserSettingsError::TooManyRequestsException
            | AdminSetUserSettingsError::UnexpectedLambdaException
            | AdminSetUserSettingsError::UserLambdaValidationException
            | AdminSetUserSettingsError::UserNotConfirmedException
            | AdminSetUserSettingsError::UserNotFoundException => status_code(400),
            _ => status_code(500),
        }
    }
}

impl ErrorKind for AdminSetUserSettingsError {
    open spec fn name(&self) -> Seq<char> {
        match self {
            AdminSetUserSettingsError::InternalErrorException => "InternalErrorException"@,
            AdminSetUserSettingsError::InvalidLambdaResponseException => {
                "InvalidLambdaResponseException"@
            },
            AdminSetUserSettingsError::InvalidParameterException => "InvalidParameterException"@,
            AdminSetUserSettingsError::InvalidSmsRoleAccessPolicyException => {
                "InvalidSmsRoleAccessPolicyException"@
            },
            AdminSetUserSettingsError::InvalidSmsRoleTrustRelationshipException => {
                "InvalidSmsRoleTrustRelationshipException"@
            },
            AdminSetUserSettingsError::InvalidUserPoolConfigurationException => {
                "InvalidUserPoolConfigurationException"@
            },
            AdminSetUserSettingsError::MFAMethodNotFoundException => "MFAMethodNotFoundException"@,
            AdminSetUserSettingsError::NotAuthorizedException => "NotAuthorizedException"@,
            AdminSetUserSettingsError::PasswordResetRequiredException => {
                "PasswordResetRequiredException"@
            },
            AdminSetUserSettingsError::ResourceNotFoundException => "ResourceNotFoundException"@,
            AdminSetUserSettingsError::TooManyRequestsException => "TooManyRequestsException"@,
            AdminSetUserSettingsError::UnexpectedLambdaException => "UnexpectedLambdaException"@,
            AdminSetUserSettingsError::UserLambdaValidationException => {
                "UserLambdaValidationException"@
            },
            AdminSetUserSettingsError::UserNotConfirmedException => "UserNotConfirmedException"@,
            AdminSetUserSettingsError::UserNotFoundException => "UserNotFoundException"@,
        }
    }

    open spec fn parse(name: Seq<char>) -> Option<Self> {
        if name == "InternalErrorException"@ {
            Some(AdminSetUserSettingsError::InternalErrorException)
        } else if name == "InvalidLambdaResponseException"@ {
            Some(AdminSetUserSettingsError::InvalidLambdaResponseException)
        } else if name == "InvalidParameterException"@ {
            Some(AdminSetUserSettingsError::InvalidParameterException)
        } else if name == "InvalidSmsRoleAccessPolicyException"@ {
            Some(AdminSetUserSettingsError::InvalidSmsRoleAccessPolicyException)
        } else if name == "InvalidSmsRoleTrustRelationshipException"@ {
            Some(AdminSetUserSettingsError::InvalidSmsRoleTrustRelationshipException)
        } else if name == "InvalidUserPoolConfigurationException"@ {
            Some(AdminSetUserSettingsError::InvalidUserPoolConfigurationException)
        } else if name == "MFAMethodNotFoundException"@ {
            Some(AdminSetUserSettingsError::MFAMethodNotFoundException)
        } else if name == "NotAuthorizedException"@ {
            Some(AdminSetUserSettingsError::NotAuthorizedException)
        } else if name == "PasswordResetRequiredException"@ {
            Some(AdminSetUserSettingsError::PasswordResetRequiredException)
        } else if name == "ResourceNotFoundException"@ {
            Some(AdminSetUserSettingsError::ResourceNotFoundException)
        } else if name == "TooManyRequestsException"@ {
            Some(AdminSetUserSettingsError::TooManyRequestsException)
        } else if name == "UnexpectedLambdaException"@ {
            Some(AdminSetUserSettingsError::UnexpectedLambdaException)
        } else if name == "UserLambdaValidationException"@ {
            Some(AdminSetUserSettingsError::UserLambdaValidationException)
        } else if name == "UserNotConfirmedException"@ {
            Some(AdminSetUserSettingsError::UserNotConfirmedException)
        } else if name == "UserNotFoundException"@ {
            Some(AdminSetUserSettingsError::UserNotFoundException)
        } else {
            None
        }
    }

    fn to_string(&self) -> (text: String) {
        self.as_str().to_owned()
    }

    fn from_str(name: &str) -> (kind: Result<Self, UnknownErrorName>) {
        if str_eq(name, "InternalErrorException") {
            Ok(AdminSetUserSettingsError::InternalErrorException)
        } else if str_eq(name, "InvalidLambdaResponseException") {
            Ok(AdminSetUserSettingsError::InvalidLambdaResponseException)
        } else if str_eq(name, "InvalidParameterException") {
            Ok(AdminSetUserSettingsError::InvalidParameterException)
        } else if str_eq(name, "InvalidSmsRoleAccessPolicyException") {
            Ok(AdminSetUserSettingsError::InvalidSmsRoleAccessPolicyException)
        } else if str_eq(name, "InvalidSmsRoleTrustRelationshipException") {
            Ok(AdminSetUserSettingsError::InvalidSmsRoleTrustRelationshipException)
        } else if str_eq(name, "InvalidUserPoolConfigurationException") {
            Ok(AdminSetUserSettingsError::InvalidUserPoolConfigurationException)
        } else if str_eq(name, "MFAMethodNotFoundException") {
            Ok(AdminSetUserSettingsError::MFAMethodNotFoundException)
        } else if str_eq(name, "NotAuthorizedException") {
            Ok(AdminSetUserSettingsError::NotAuthorizedException)
        } else if str_eq(name, "PasswordResetRequiredException") {
            Ok(AdminSetUserSettingsError::PasswordResetRequiredException)
        } else if str_eq(name, "ResourceNotFoundException") {
            Ok(AdminSetUserSettingsError::ResourceNotFoundException)
        } else if str_eq(name, "TooManyRequestsException") {
            Ok(AdminSetUserSettingsError::TooManyRequestsException)
        } else if str_eq(name, "UnexpectedLambdaException") {
            Ok(AdminSetUserSettingsError::UnexpectedLambdaException)
        } else if str_eq(name, "UserLambdaValidationException") {
            Ok(AdminSetUserSettingsError::UserLambdaValidationException)
        } else if str_eq(name, "UserNotConfirmedException") {
            Ok(AdminSetUserSettingsError::UserNotConfirmedException)
        } else if str_eq(name, "UserNotFoundException") {
            Ok(AdminSetUserSettingsError::UserNotFoundException)
        } else {
            Err(UnknownErrorName)
        }
    }

    proof fn lemma_parse_of_name(&self) {
        Self::lemma_name_of_parse(self.name());
        if let Some(kind) = Self::parse(self.name()) {
            if kind != *self {
                Self::lemma_names_told_apart(kind, *self);
            }
        }
    }

    proof fn lemma_name_of_parse(name: Seq<char>) {
    }
}

impl ActionError for AdminSetUserSettingsError {
    proof fn lemma_no_common_name(common: CommonError) {
        Self::lemma_name_of_parse(common.name());
        if let Some(kind) = Self::parse(common.name()) {
            Self::lemma_told_apart_from_common(kind, common);
        }
    }
}

/// The name of a kind parses back to the kind, and the kind maps to 500 where
/// it is an internal error of the service and to 400 otherwise.
pub proof fn lemma_status_table(kind: AdminSetUserSettingsError)
    ensures
        kind.status() == if kind == AdminSetUserSettingsError::InternalErrorException {
            500u16
        } else {
            400u16
        },
        AdminSetUserSettingsError::parse(kind.name()) == Some(kind),
{
    kind.lemma_parse_of_name();
}

/// A decoded request of AdminSetUserSettings. Every field may be absent.
#[derive(Debug)]
pub struct AdminSetUserSettingsRequest {
    pub mfa_options: Option<Vec<MFAOptionType>>,
    pub username: Option<String>,
    pub user_pool_id: Option<String>,
}

impl Default for AdminSetUserSettingsRequest {
    /// The request with every field absent.
    fn default() -> (request: Self)
        ensures
            request.mfa_options is None,
            request.username is None,
            request.user_pool_id is None,
    {
        AdminSetUserSettingsRequest {
            mfa_options: None,
            username: None,
            user_pool_id: None,
        }
    }
}

/// A request is valid where it holds a list of MFA options, be it empty, and
/// names a user and a user pool, neither blank.
pub open spec fn valid(request: &AdminSetUserSettingsRequest) -> bool {
    request.mfa_options is Some && !blank(field_view(&request.username)) && !blank(
        field_view(&request.user_pool_id),
    )
}

/// Validates request.
pub fn valid_request(request: &AdminSetUserSettingsRequest) -> (ok: bool)
    ensures
        ok == valid(request),
{
    request.mfa_options.is_some()
        && !is_blank(&request.username) && !is_blank(&request.user_pool_id)
}

/// A request without a list of MFA options, or whose user name or user pool is
/// absent or empty, is not valid.
pub proof fn lemma_blank_field_is_invalid(request: &AdminSetUserSettingsRequest)
    requires
        request.mfa_options is None || blank(field_view(&request.username)) || blank(
            field_view(&request.user_pool_id),
        ),
    ensures
        !valid(request),
{
}

impl ToActionName for AdminSetUserSettingsRequest {
    open spec fn action_name() -> Seq<char> {
        ADMIN_SET_USER_SETTINGS_NAME@
    }

    fn to_action_name() -> (name: &'static str) {
        ADMIN_SET_USER_SETTINGS_NAME
    }
}

impl ActionRequest for AdminSetUserSettingsRequest {
    type E = AdminSetUserSettingsError;

    open spec fn valid(&self) -> bool {
        valid(self)
    }

    /// Overrides of this action may be scoped by user pool.
    open spec fn target(&self) -> Option<Seq<char>> {
        field_view(&self.user_pool_id)
    }

    /// The list of MFA options as a JSON array, the user name and the user pool.
    open spec fn fields(&self) -> Seq<FieldView> {
        text_field("MFAOptions"@, optional_options_text(&self.mfa_options))
            + text_field("Username"@, field_view(&self.username))
            + text_field("UserPoolId"@, field_view(&self.user_pool_id))
    }

    fn validate(&self) -> (ok: bool) {
        valid_request(self)
    }

    fn target_key(&self) -> (target: Option<&String>) {
        self.user_pool_id.as_ref()
    }

    fn to_fields(&self) -> (fields: Vec<Field>) {
        let mut fields: Vec<Field> = Vec::new();
        assert(fields_view(fields@) =~= Seq::empty());
        let options = optional_options_to_json(&self.mfa_options);
        push_text_field(&mut fields, "MFAOptions", &options);
        push_text_field(&mut fields, "Username", &self.username);
        push_text_field(&mut fields, "UserPoolId", &self.user_pool_id);
        fields
    }
}

impl ToResponse for AdminSetUserSettingsRequest {
    fn to_response(&self, config: &Config, templates: &Templates) -> (response: Response) {
        to_json_response(self, config, templates)
    }
}

} // verus!
