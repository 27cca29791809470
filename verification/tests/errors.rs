use fakey_cognito::http::{checked_status_code, status_code, status_value};
use fakey_cognito::user_pools::{
    AdminListDevicesError, AdminListUserAuthEventsError, AdminResetUserPasswordError,
    AdminSetUserSettingsError, CommonError, ErrorKind, ResponseError, ToStatusCode,
    UnknownErrorName,
};
use hyper::StatusCode;

#[test]
fn admin_list_devices_error_can_convert_to_status_code() {
    let error = AdminListDevicesError::InvalidParameterException;
    assert_eq!(status_code(400), error.to_status_code());

    let error = AdminListDevicesError::InternalErrorException;
    assert_eq!(status_code(500), error.to_status_code());
}

#[test]
fn admin_list_user_auth_events_error_can_convert_to_status_code() {
    let error = AdminListUserAuthEventsError::InvalidParameterException;
    assert_eq!(status_code(400), error.to_status_code());

    let error = AdminListUserAuthEventsError::InternalErrorException;
    assert_eq!(status_code(500), error.to_status_code());
}

#[test]
fn admin_reset_user_password_error_can_convert_to_status_code() {
    let error = AdminResetUserPasswordError::InvalidParameterException;
    assert_eq!(status_code(400), error.to_status_code());

    let error = AdminResetUserPasswordError::InternalErrorException;
    assert_eq!(status_code(500), error.to_status_code());
}

#[test]
fn admin_set_user_settings_error_can_convert_to_status_code() {
    let error = AdminSetUserSettingsError::InvalidParameterException;
    assert_eq!(status_code(400), error.to_status_code());

    let error = AdminSetUserSettingsError::InternalErrorException;
    assert_eq!(status_code(500), error.to_status_code());
}

#[test]
fn status_codes_hold_their_numbers() {
    assert_eq!(status_code(200), StatusCode::OK);
    assert_eq!(status_code(400), StatusCode::BAD_REQUEST);
    assert_eq!(status_code(503), StatusCode::SERVICE_UNAVAILABLE);
    assert_eq!(StatusCode::NOT_FOUND.as_u16(), 404);
    assert_eq!(status_code(999).as_u16(), 999);
    assert_eq!(status_value(&StatusCode::NOT_FOUND), 404);
    assert_eq!(status_value(&status_code(100)), 100);
    assert_eq!(status_value(&status_code(999)), 999);
    assert_ne!(status_code(400), status_code(500));
    assert_ne!(status_code(400), status_code(200));
    assert_eq!(checked_status_code(100), Some(StatusCode::CONTINUE));
    assert_eq!(checked_status_code(99), None);
    assert_eq!(checked_status_code(1000), None);
    assert_eq!(checked_status_code(0), None);
}

fn common_table() -> Vec<(CommonError, &'static str, u16)> {
    vec![
        (CommonError::AccessDeniedException, "AccessDeniedException", 403),
        (CommonError::IncompleteSignature, "IncompleteSignature", 400),
        (CommonError::InternalFailure, "InternalFailure", 500),
        (CommonError::InvalidAction, "InvalidAction", 400),
        (CommonError::InvalidClientTokenId, "InvalidClientTokenId", 403),
        (CommonError::InvalidParameterCombination, "InvalidParameterCombination", 400),
        (CommonError::InvalidParameterValue, "InvalidParameterValue", 400),
        (CommonError::InvalidQueryParameter, "InvalidQueryParameter", 400),
        (CommonError::MalformedQueryString, "MalformedQueryString", 404),
        (CommonError::MissingAction, "MissingAction", 400),
        (CommonError::MissingAuthenticationToken, "MissingAuthenticationToken", 403),
        (CommonError::MissingParameter, "MissingParameter", 400),
        (CommonError::NotAuthorized, "NotAuthorized", 403),
        (CommonError::OptInRequired, "OptInRequired", 403),
        (CommonError::RequestExpired, "RequestExpired", 400),
        (CommonError::ServiceUnavailable, "ServiceUnavailable", 503),
        (CommonError::ThrottlingException, "ThrottlingException", 400),
        (CommonError::ValidationError, "ValidationError", 400),
    ]
}

#[test]
fn common_errors_follow_the_table() {
    for (kind, name, status) in common_table() {
        assert_eq!(kind.to_string(), name);
        assert_eq!(kind.as_str(), name);
        assert_eq!(CommonError::from_str(name), Ok(kind));
        assert_eq!(kind.to_status_code().as_u16(), status);
    }
}

#[test]
fn common_names_parse_in_every_action_scope() {
    for (kind, name, status) in common_table() {
        let parsed = ResponseError::<AdminResetUserPasswordError>::from_str(name);
        assert_eq!(parsed, Ok(ResponseError::CommonError(kind)));
        assert_eq!(parsed.unwrap().to_status_code().as_u16(), status);
        let parsed = ResponseError::<AdminListDevicesError>::from_str(name);
        assert_eq!(parsed, Ok(ResponseError::CommonError(kind)));
        let parsed = ResponseError::<AdminListUserAuthEventsError>::from_str(name);
        assert_eq!(parsed, Ok(ResponseError::CommonError(kind)));
        let parsed = ResponseError::<AdminSetUserSettingsError>::from_str(name);
        assert_eq!(parsed, Ok(ResponseError::CommonError(kind)));
    }
}

#[test]
fn list_devices_errors_round_trip() {
    let kinds = [
        (AdminListDevicesError::InternalErrorException, "InternalErrorException", 500),
        (AdminListDevicesError::InvalidParameterException, "InvalidParameterException", 400),
        (
            AdminListDevicesError::InvalidUserPoolConfigurationException,
            "InvalidUserPoolConfigurationException",
            400,
        ),
        (AdminListDevicesError::NotAuthorizedException, "NotAuthorizedException", 400),
        (AdminListDevicesError::ResourceNotFoundException, "ResourceNotFoundException", 400),
        (AdminListDevicesError::TooManyRequestsException, "TooManyRequestsException", 400),
    ];
    for (kind, name, status) in kinds {
        assert_eq!(kind.to_string(), name);
        assert_eq!(AdminListDevicesError::from_str(name), Ok(kind));
        let parsed = ResponseError::<AdminListDevicesError>::from_str(name).unwrap();
        assert_eq!(parsed, ResponseError::ActionError(kind));
        assert_eq!(parsed.to_string(), name);
        assert_eq!(parsed.to_status_code().as_u16(), status);
    }
}

#[test]
fn list_user_auth_events_errors_round_trip() {
    let kinds = [
        (AdminListUserAuthEventsError::InternalErrorException, "InternalErrorException", 500),
        (AdminListUserAuthEventsError::InvalidParameterException, "InvalidParameterException", 400),
        (AdminListUserAuthEventsError::NotAuthorizedException, "NotAuthorizedException", 400),
        (AdminListUserAuthEventsError::ResourceNotFoundException, "ResourceNotFoundException", 400),
        (AdminListUserAuthEventsError::TooManyRequestsException, "TooManyRequestsException", 400),
        (AdminListUserAuthEventsError::UserNotFoundException, "UserNotFoundException", 400),
        (
            AdminListUserAuthEventsError::UserPoolAddOnNotEnabledException,
            "UserPoolAddOnNotEnabledException",
            400,
        ),
    ];
    for (kind, name, status) in kinds {
        assert_eq!(kind.to_string(), name);
        assert_eq!(AdminListUserAuthEventsError::from_str(name), Ok(kind));
        assert_eq!(kind.to_status_code().as_u16(), status);
    }
}

#[test]
fn reset_user_password_errors_round_trip() {
    let kinds = [
        (AdminResetUserPasswordError::InternalErrorException, "InternalErrorException", 500),
        (AdminResetUserPasswordError::InvalidEmailRoleAccessPolicyException, "InvalidEmailRoleAccessPolicyException", 400),
        (AdminResetUserPasswordError::InvalidLambdaResponseException, "InvalidLambdaResponseException", 400),
        (AdminResetUserPasswordError::InvalidParameterException, "InvalidParameterException", 400),
        (AdminResetUserPasswordError::InvalidSmsRoleAccessPolicyException, "InvalidSmsRoleAccessPolicyException", 400),
        (
            AdminResetUserPasswordError::InvalidSmsRoleTrustRelationshipException,
            "InvalidSmsRoleTrustRelationshipException",
            400,
        ),
        (AdminResetUserPasswordError::LimitExceededException, "LimitExceededException", 400),
        (AdminResetUserPasswordError::NotAuthorizedException, "NotAuthorizedException", 400),
        (AdminResetUserPasswordError::ResourceNotFoundException, "ResourceNotFoundException", 400),
        (AdminResetUserPasswordError::TooManyRequestsException, "TooManyRequestsException", 400),
        (AdminResetUserPasswordError::UnexpectedLambdaException, "UnexpectedLambdaException", 400),
        (AdminResetUserPasswordError::UserLambdaValidationException, "UserLambdaValidationException", 400),
        (AdminResetUserPasswordError::UserNotFoundException, "UserNotFoundException", 400),
    ];
    for (kind, name, status) in kinds {
        assert_eq!(kind.to_string(), name);
        assert_eq!(AdminResetUserPasswordError::from_str(name), Ok(kind));
        assert_eq!(kind.to_status_code().as_u16(), status);
    }
}

#[test]
fn set_user_settings_errors_round_trip() {
    let kinds = [
        (AdminSetUserSettingsError::InternalErrorException, "InternalErrorException", 500),
        (AdminSetUserSettingsError::InvalidLambdaResponseException, "InvalidLambdaResponseException", 400),
        (AdminSetUserSettingsError::InvalidParameterException, "InvalidParameterException", 400),
        (AdminSetUserSettingsError::InvalidSmsRoleAccessPolicyException, "InvalidSmsRoleAccessPolicyException", 400),
        (
            AdminSetUserSettingsError::InvalidSmsRoleTrustRelationshipException,
            "InvalidSmsRoleTrustRelationshipException",
            400,
        ),
        (AdminSetUserSettingsError::InvalidUserPoolConfigurationException, "InvalidUserPoolConfigurationException", 400),
        (AdminSetUserSettingsError::MFAMethodNotFoundException, "MFAMethodNotFoundException", 400),
        (AdminSetUserSettingsError::NotAuthorizedException, "NotAuthorizedException", 400),
        (AdminSetUserSettingsError::PasswordResetRequiredException, "PasswordResetRequiredException", 400),
        (AdminSetUserSettingsError::ResourceNotFoundException, "ResourceNotFoundException", 400),
        (AdminSetUserSettingsError::TooManyRequestsException, "TooManyRequestsException", 400),
        (AdminSetUserSettingsError::UnexpectedLambdaException, "UnexpectedLambdaException", 400),
        (AdminSetUserSettingsError::UserLambdaValidationException, "UserLambdaValidationException", 400),
        (AdminSetUserSettingsError::UserNotConfirmedException, "UserNotConfirmedException", 400),
        (AdminSetUserSettingsError::UserNotFoundException, "UserNotFoundException", 400),
    ];
    for (kind, name, status) in kinds {
        assert_eq!(kind.to_string(), name);
        assert_eq!(AdminSetUserSettingsError::from_str(name), Ok(kind));
        assert_eq!(kind.to_status_code().as_u16(), status);
    }
}

#[test]
fn named_examples_resolve() {
    let internal = ResponseError::<AdminResetUserPasswordError>::from_str("InternalErrorException");
    assert_eq!(internal.unwrap().to_status_code().as_u16(), 500);
    let invalid = ResponseError::<AdminResetUserPasswordError>::from_str("InvalidParameterException");
    assert_eq!(invalid.unwrap().to_status_code().as_u16(), 400);
}

#[test]
fn unknown_names_are_refused() {
    assert_eq!(CommonError::from_str("NoSuchError"), Err(UnknownErrorName));
    assert_eq!(CommonError::from_str(""), Err(UnknownErrorName));
    assert_eq!(CommonError::from_str("internalfailure"), Err(UnknownErrorName));
    assert_eq!(CommonError::from_str("InternalFailure "), Err(UnknownErrorName));
    assert_eq!(CommonError::from_str("UserNotFoundException"), Err(UnknownErrorName));
    assert_eq!(
        AdminListDevicesError::from_str("UserNotFoundException"),
        Err(UnknownErrorName)
    );
    assert_eq!(
        ResponseError::<AdminListDevicesError>::from_str("UserNotFoundException"),
        Err(UnknownErrorName)
    );
    assert_eq!(
        ResponseError::<AdminListUserAuthEventsError>::from_str("UserNotFoundException"),
        Ok(ResponseError::ActionError(AdminListUserAuthEventsError::UserNotFoundException))
    );
}

#[test]
fn access_and_authorization_kinds_are_forbidden() {
    assert_eq!(CommonError::AccessDeniedException.to_status_code(), status_code(403));
    assert_eq!(CommonError::NotAuthorized.to_status_code(), status_code(403));
    assert_eq!(CommonError::InvalidClientTokenId.to_status_code(), status_code(403));
    assert_eq!(CommonError::MissingAuthenticationToken.to_status_code(), status_code(403));
    assert_eq!(CommonError::OptInRequired.to_status_code(), status_code(403));
    let parsed = ResponseError::<AdminListDevicesError>::from_str("NotAuthorized").unwrap();
    assert_eq!(status_value(&parsed.to_status_code()), 403);
    let parsed = ResponseError::<AdminListDevicesError>::from_str("NotAuthorizedException");
    assert_eq!(status_value(&parsed.unwrap().to_status_code()), 400);
}
