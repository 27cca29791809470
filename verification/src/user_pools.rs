//! The actions on user pools and what they share.

pub mod actions;
pub mod admin_list_devices;
pub mod admin_list_user_auth_events;
pub mod admin_reset_user_password;
pub mod admin_set_user_settings;
pub mod configs;
pub mod data_types;
pub mod errors;
pub mod responses;

pub use self::actions::{Action, SERVICE_PREFIX};
pub use self::admin_list_devices::{
    AdminListDevicesError, AdminListDevicesRequest, ADMIN_LIST_DEVICES_ACTION_NAME,
    ADMIN_LIST_DEVICES_NAME,
};
pub use self::admin_list_user_auth_events::{
    AdminListUserAuthEventsError, AdminListUserAuthEventsRequest,
    ADMIN_LIST_USER_AUTH_EVENTS_ACTION_NAME, ADMIN_LIST_USER_AUTH_EVENTS_NAME,
};
pub use self::admin_reset_user_password::{
    AdminResetUserPasswordError, AdminResetUserPasswordRequest,
    ADMIN_RESET_USER_PASSWORD_ACTION_NAME, ADMIN_RESET_USER_PASSWORD_NAME,
};
pub use self::admin_set_user_settings::{
    AdminSetUserSettingsError, AdminSetUserSettingsRequest, ADMIN_SET_USER_SETTINGS_ACTION_NAME,
    ADMIN_SET_USER_SETTINGS_NAME,
};
pub use self::configs::{Config, OverrideEntry, OverrideKey};
pub use self::data_types::{MFAOptionType, SoftwareTokenMfaSettingsType};
pub use self::errors::{
    ActionError, CommonError, ErrorKind, ResponseError, ToStatusCode, UnknownErrorName,
};
pub use self::responses::{
    config_response, error_response, to_json_response, undecoded_response,
    unknown_action_response, ActionRequest, Body, Response, ToActionName, ToResponse,
};
