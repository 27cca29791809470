use fakey_cognito::common::is_blank;
use fakey_cognito::user_pools::{
    admin_list_devices, admin_list_user_auth_events, admin_reset_user_password,
    admin_set_user_settings, AdminListDevicesRequest, AdminListUserAuthEventsRequest,
    AdminResetUserPasswordRequest, AdminSetUserSettingsRequest, MFAOptionType,
    SoftwareTokenMfaSettingsType,
};

#[test]
fn admin_list_devices_success_to_valid_request() {
    let request = AdminListDevicesRequest {
        username: Some("username".to_string()),
        user_pool_id: Some("user_pool_id".to_string()),
        ..Default::default()
    };
    assert!(admin_list_devices::valid_request(&request));
}

#[test]
fn admin_list_devices_failure_to_valid_request() {
    let request = AdminListDevicesRequest {
        username: Some("username".to_string()),
        user_pool_id: Some("".to_string()),
        ..Default::default()
    };
    assert!(!admin_list_devices::valid_request(&request));
}

#[test]
fn admin_list_user_auth_events_success_to_valid_request() {
    let request = AdminListUserAuthEventsRequest {
        username: Some("username".to_string()),
        user_pool_id: Some("user_pool_id".to_string()),
        ..Default::default()
    };
    assert!(admin_list_user_auth_events::valid_request(&request));
}

#[test]
fn admin_list_user_auth_events_failure_to_valid_request() {
    let request = AdminListUserAuthEventsRequest {
        username: Some("username".to_string()),
        user_pool_id: Some("".to_string()),
        ..Default::default()
    };
    assert!(!admin_list_user_auth_events::valid_request(&request));
}

#[test]
fn admin_reset_user_password_success_to_valid_request() {
    let request = AdminResetUserPasswordRequest {
        username: Some("username".to_string()),
        user_pool_id: Some("user_pool_id".to_string()),
        ..Default::default()
    };
    assert!(admin_reset_user_password::valid_request(&request));
}

#[test]
fn admin_reset_user_password_failure_to_valid_request() {
    let request = AdminResetUserPasswordRequest {
        username: Some("username".to_string()),
        user_pool_id: Some("".to_string()),
        ..Default::default()
    };
    assert!(!admin_reset_user_password::valid_request(&request));
}

#[test]
fn admin_set_user_settings_success_to_valid_request() {
    let request = AdminSetUserSettingsRequest {
        mfa_options: Some(Default::default()),
        username: Some("username".to_string()),
        user_pool_id: Some("user_pool_id".to_string()),
        ..Default::default()
    };
    assert!(admin_set_user_settings::valid_request(&request));
}

#[test]
fn admin_set_user_settings_failure_to_valid_request() {
    let request = AdminSetUserSettingsRequest {
        mfa_options: Some(Default::default()),
        username: Some("username".to_string()),
        user_pool_id: Some("".to_string()),
        ..Default::default()
    };
    assert!(!admin_set_user_settings::valid_request(&request));
}

#[test]
fn blank_is_absent_or_empty() {
    assert!(is_blank(&None));
    assert!(is_blank(&Some(String::new())));
    assert!(!is_blank(&Some("a".to_string())));
    assert!(!is_blank(&Some(" ".to_string())));
}

#[test]
fn absent_fields_are_invalid() {
    assert!(!admin_list_devices::valid_request(&AdminListDevicesRequest::default()));
    let no_user = AdminListDevicesRequest {
        user_pool_id: Some("pool-1".to_string()),
        ..Default::default()
    };
    assert!(!admin_list_devices::valid_request(&no_user));
    let no_pool = AdminResetUserPasswordRequest {
        username: Some("alice".to_string()),
        ..Default::default()
    };
    assert!(!admin_reset_user_password::valid_request(&no_pool));
    let blank_user = AdminListUserAuthEventsRequest {
        username: Some(String::new()),
        user_pool_id: Some("pool-1".to_string()),
        ..Default::default()
    };
    assert!(!admin_list_user_auth_events::valid_request(&blank_user));
}

#[test]
fn settings_need_a_list_of_options() {
    let absent = AdminSetUserSettingsRequest {
        mfa_options: None,
        username: Some("alice".to_string()),
        user_pool_id: Some("pool-1".to_string()),
    };
    assert!(!admin_set_user_settings::valid_request(&absent));
    let empty = AdminSetUserSettingsRequest {
        mfa_options: Some(Vec::new()),
        username: Some("alice".to_string()),
        user_pool_id: Some("pool-1".to_string()),
    };
    assert!(admin_set_user_settings::valid_request(&empty));
    let one = AdminSetUserSettingsRequest {
        mfa_options: Some(vec![MFAOptionType {
            attribute_name: Some("phone_number".to_string()),
            delivery_medium: Some("SMS".to_string()),
        }]),
        username: Some("alice".to_string()),
        user_pool_id: Some("pool-1".to_string()),
    };
    assert!(admin_set_user_settings::valid_request(&one));
}

#[test]
fn default_data_types_are_empty() {
    let option = MFAOptionType::default();
    assert!(option.attribute_name.is_none() && option.delivery_medium.is_none());
    let settings = SoftwareTokenMfaSettingsType::default();
    assert!(settings.enabled.is_none() && settings.prefrred_mfa.is_none());
    let request = AdminResetUserPasswordRequest::default();
    assert!(request.client_metadata.is_none());
    assert!(request.username.is_none() && request.user_pool_id.is_none());
}
