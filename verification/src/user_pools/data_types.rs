//! The data types that requests hold.

pub mod mfa_option_type;
pub mod software_token_mfa_settings_type;

pub use self::mfa_option_type::{options_to_json, MFAOptionType};
pub use self::software_token_mfa_settings_type::SoftwareTokenMfaSettingsType;
