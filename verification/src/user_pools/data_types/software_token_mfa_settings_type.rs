use vstd::prelude::*;

verus! {

/// The settings of a user for MFA by software token.
#[derive(Debug)]
pub struct SoftwareTokenMfaSettingsType {
    pub enabled: Option<bool>,
    pub prefrred_mfa: Option<bool>,
}

impl Default for SoftwareTokenMfaSettingsType {
    /// The settings with both fields absent.
    fn default() -> (settings: Self)
        ensures
            settings.enabled is None,
            settings.prefrred_mfa is None,
    {
        SoftwareTokenMfaSettingsType { enabled: None, prefrred_mfa: None }
    }
}

} // verus!
