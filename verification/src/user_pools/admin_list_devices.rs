//! The action that lists the devices of a user: its request, its rule of validity and its
//! error kinds.

use super::configs::Config;
use super::errors::{
    told_apart, ActionError, CommonError, ErrorKind, ToStatusCode, UnknownErrorName,
};
use super::responses::{
    to_json_response, ActionRequest, Response, ToActionName, ToResponse,
};
use crate::common::{blank, field_view, is_blank, str_eq};
use crate::http::status_code;
use crate::templates::{
    fields_view, number_field, push_number_field, push_text_field, text_field, Field, FieldView,
    Templates,
};
use hyper::StatusCode;
use vstd::prelude::*;

verus! {

pub const ADMIN_LIST_DEVICES_NAME: &'static str = "AdminListDevices";

pub const ADMIN_LIST_DEVICES_ACTION_NAME: &'static str =
    "AWSCognitoIdentityProviderService.AdminListDevices";

/// The error kinds of AdminListDevices.
#[derive(Clone, Copy, Debug, PartialEq, Eq, Structural)]
pub enum AdminListDevicesError {
    InternalErrorException,
    InvalidParameterException,
    InvalidUserPoolConfigurationException,
    NotAuthorizedException,
    ResourceNotFoundException,
    TooManyRequestsException,
}

impl AdminListDevicesError {
    /// The name of this kind as it stands in an error body.
    pub fn as_str(&self) -> (name: &'static str)
        ensures
            name@ == self.name(),
    {
        match self {
            AdminListDevicesError::InternalErrorException => "InternalErrorException",
            AdminListDevicesError::InvalidParameterException => "InvalidParameterException",
            AdminListDevicesError::InvalidUserPoolConfigurationException => {
                "InvalidUserPoolConfigurationException"
            },
            AdminListDevicesError::NotAuthorizedException => "NotAuthorizedException",
            AdminListDevicesError::ResourceNotFoundException => "ResourceNotFoundException",
            AdminListDevicesError::TooManyRequestsException => "TooManyRequestsException",
        }
    }

    /// Two different kinds carry names that differ in their length, their first
    /// character or their eighth: no two kinds share a name.
    pub proof fn lemma_names_told_apart(first: AdminListDevicesError, second: AdminListDevicesError)
        requires
            first != second,
        ensures
            told_apart(first.name(), second.name()),
    {
        reveal_strlit("InternalErrorException");
        reveal_strlit("InvalidParameterException");
        reveal_strlit("InvalidUserPoolConfigurationException");
        reveal_strlit("NotAuthorizedException");
        reveal_strlit("ResourceNotFoundException");
        reveal_strlit("TooManyRequestsException");
    }

    /// The name of a kind of this action differs from the name of every common
    /// kind in its length, its first character or its eighth.
    pub proof fn lemma_told_apart_from_common(kind: AdminListDevicesError, common: CommonError)
        ensures
            told_apart(kind.name(), common.name()),
    {
        reveal_strlit("AccessDeniedException");
        reveal_strlit("IncompleteSignature");
        reveal_strlit("InternalErrorException");
        reveal_strlit("InternalFailure");
        reveal_strlit("InvalidAction");
        reveal_strlit("InvalidClientTokenId");
        reveal_strlit("InvalidParameterCombination");
        reveal_strlit("InvalidParameterException");
        reveal_strlit("InvalidParameterValue");
        reveal_strlit("InvalidQueryParameter");
        reveal_strlit("InvalidUserPoolConfigurationException");
        reveal_strlit("MalformedQueryString");
        reveal_strlit("MissingAction");
        reveal_strlit("MissingAuthenticationToken");
        reveal_strlit("MissingParameter");
        reveal_strlit("NotAuthorized");
        reveal_strlit("NotAuthorizedException");
        reveal_strlit("OptInRequired");
        reveal_strlit("RequestExpired");
        reveal_strlit("ResourceNotFoundException");
        reveal_strlit("ServiceUnavailable");
        reveal_strlit("ThrottlingException");
        reveal_strlit("TooManyRequestsException");
        reveal_strlit("ValidationError");
    }
}

impl ToStatusCode for AdminListDevicesError {
    open spec fn status(&self) -> u16 {
        match self {
            AdminListDevicesError::InternalErrorException => 500,
            _ => 400,
        }
    }

    fn to_status_code(&self) -> (code: StatusCode) {
        match self {
            AdminListDevicesError::InvalidParameterException
            | AdminListDevicesError::InvalidUserPoolConfigurationException
            | AdminListDevicesError::NotAuthorizedException
            | AdminListDevicesError::ResourceNotFoundException
            | AdminListDevicesError::TooManyRequestsException => status_code(400),
            _ => status_code(500),
        }
    }
}

impl ErrorKind for AdminListDevicesError {
    open spec fn name(&self) -> Seq<char> {
        match self {
            AdminListDevicesError::InternalErrorException => "InternalErrorException"@,
            AdminListDevicesError::InvalidParameterException => "InvalidParameterException"@,
            AdminListDevicesError::InvalidUserPoolConfigurationException => {
                "InvalidUserPoolConfigurationException"@
            },
            AdminListDevicesError::NotAuthorizedException => "NotAuthorizedException"@,
            AdminListDevicesError::ResourceNotFoundException => "ResourceNotFoundException"@,
            AdminListDevicesError::TooManyRequestsException => "TooManyRequestsException"@,
        }
    }

    open spec fn parse(name: Seq<char>) -> Option<Self> {
        if name == "InternalErrorException"@ {
            Some(AdminListDevicesError::InternalErrorException)
        } else if name == "InvalidParameterException"@ {
            Some(AdminListDevicesError::InvalidParameterException)
        } else if name == "InvalidUserPoolConfigurationException"@ {
            Some(AdminListDevicesError::InvalidUserPoolConfigurationException)
        } else if name == "NotAuthorizedException"@ {
            Some(AdminListDevicesError::NotAuthorizedException)
        } else if name == "ResourceNotFoundException"@ {
            Some(AdminListDevicesError::ResourceNotFoundException)
        } else if name == "TooManyRequestsException"@ {
            Some(AdminListDevicesError::TooManyRequestsException)
        } else {
            None
        }
    }

    fn to_string(&self) -> (text: String) {
        self.as_str().to_owned()
    }

    fn from_str(name: &str) -> (kind: Result<Self, UnknownErrorName>) {
        if str_eq(name, "InternalErrorException") {
            Ok(AdminListDevicesError::InternalErrorException)
        } else if str_eq(name, "InvalidParameterException") {
            Ok(AdminListDevicesError::InvalidParameterException)
        } else if str_eq(name, "InvalidUserPoolConfigurationException") {
            Ok(AdminListDevicesError::InvalidUserPoolConfigurationException)
        } else if str_eq(name, "NotAuthorizedException") {
            Ok(AdminListDevicesError::NotAuthorizedException)
        } else if str_eq(name, "ResourceNotFoundException") {
            Ok(AdminListDevicesError::ResourceNotFoundException)
        } else if str_eq(name, "TooManyRequestsException") {
            Ok(AdminListDevicesError::TooManyRequestsException)
        } else {
            Err(UnknownErrorName)
        }
    }

    proof fn lemma_parse_of_name(&self) {
        Self::lemma_name_of_parse(self.name());
        if let Some(kind) = Self::parse(self.name()) {
            if kind != *self {
                Self::lemma_names_told_apart(kind, *self);
            }
        }
    }

    proof fn lemma_name_of_parse(name: Seq<char>) {
    }
}

impl ActionError for AdminListDevicesError {
    proof fn lemma_no_common_name(common: CommonError) {
        Self::lemma_name_of_parse(common.name());
        if let Some(kind) = Self::parse(common.name()) {
            Self::lemma_told_apart_from_common(kind, common);
        }
    }
}

/// The name of a kind parses back to the kind, and the kind maps to 500 where
/// it is an internal error of the service and to 400 otherwise.
pub proof fn lemma_status_table(kind: AdminListDevicesError)
    ensures
        kind.status() == if kind == AdminListDevicesError::InternalErrorException {
            500u16
        } else {
            400u16
        },
        AdminListDevicesError::parse(kind.name()) == Some(kind),
{
    kind.lemma_parse_of_name();
}

/// A decoded request of AdminListDevices. Every field may be absent.
#[derive(Debug)]
pub struct AdminListDevicesRequest {
    pub limit: Option<u8>,
    pub pagination_token: Option<String>,
    pub username: Option<String>,
    pub user_pool_id: Option<String>,
}

impl Default for AdminListDevicesRequest {
    /// The request with every field absent.
    fn default() -> (request: Self)
        ensures
            request.limit is None,
            request.pagination_token is None,
            request.username is None,
            request.user_pool_id is None,
    {
        AdminListDevicesRequest {
            limit: None,
            pagination_token: None,
            username: None,
            user_pool_id: None,
        }
    }
}

/// A request is valid where it names a user and a user pool, neither blank.
pub open spec fn valid(request: &AdminListDevicesRequest) -> bool {
    !blank(field_view(&request.username)) && !blank(field_view(&request.user_pool_id))
}

/// Validates request.
pub fn valid_request(request: &AdminListDevicesRequest) -> (ok: bool)
    ensures
        ok == valid(request),
{
    !is_blank(&request.username) && !is_blank(&request.user_pool_id)
}

/// A request whose user name or user pool is absent or empty is not valid.
pub proof fn lemma_blank_field_is_invalid(request: &AdminListDevicesRequest)
    requires
        blank(field_view(&request.username)) || blank(field_view(&request.user_pool_id)),
    ensures
        !valid(request),
{
}

impl ToActionName for AdminListDevicesRequest {
    open spec fn action_name() -> Seq<char> {
        ADMIN_LIST_DEVICES_NAME@
    }

    fn to_action_name() -> (name: &'static str) {
        ADMIN_LIST_DEVICES_NAME
    }
}

impl ActionRequest for AdminListDevicesRequest {
    type E = AdminListDevicesError;

    open spec fn valid(&self) -> bool {
        valid(self)
    }

    /// Overrides of this action may be scoped by user pool.
    open spec fn target(&self) -> Option<Seq<char>> {
        field_view(&self.user_pool_id)
    }

    open spec fn fields(&self) -> Seq<FieldView> {
        number_field("Limit"@, self.limit)
            + text_field("PaginationToken"@, field_view(&self.pagination_token))
            + text_field("Username"@, field_view(&self.username))
            + text_field("UserPoolId"@, field_view(&self.user_pool_id))
    }

    fn validate(&self) -> (ok: bool) {
        valid_request(self)
    }

    fn target_key(&self) -> (target: Option<&String>) {
        self.user_pool_id.as_ref()
    }

    fn to_fields(&self) -> (fields: Vec<Field>) {
        let mut fields: Vec<Field> = Vec::new();
        assert(fields_view(fields@) =~= Seq::empty());
        push_number_field(&mut fields, "Limit", &self.limit);
        push_text_field(&mut fields, "PaginationToken", &self.pagination_token);
        push_text_field(&mut fields, "Username", &self.username);
        push_text_field(&mut fields, "UserPoolId", &self.user_pool_id);
        fields
    }
}

impl ToResponse for AdminListDevicesRequest {
    fn to_response(&self, config: &Config, templates: &Templates) -> (response: Response) {
        to_json_response(self, config, templates)
    }
}

} // verus!
