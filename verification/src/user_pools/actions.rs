//! The identity of each action: its wire name and the protocol-qualified name
//! by which a call selects it.

use super::admin_list_devices::{ADMIN_LIST_DEVICES_ACTION_NAME, ADMIN_LIST_DEVICES_NAME};
use super::admin_list_user_auth_events::{
    ADMIN_LIST_USER_AUTH_EVENTS_ACTION_NAME, ADMIN_LIST_USER_AUTH_EVENTS_NAME,
};
use super::admin_reset_user_password::{
    ADMIN_RESET_USER_PASSWORD_ACTION_NAME, ADMIN_RESET_USER_PASSWORD_NAME,
};
use super::admin_set_user_settings::{
    ADMIN_SET_USER_SETTINGS_ACTION_NAME, ADMIN_SET_USER_SETTINGS_NAME,
};
use crate::common::str_eq;
use vstd::prelude::*;

verus! {

/// The prefix that qualifies the name of every action.
pub const SERVICE_PREFIX: &'static str = "AWSCognitoIdentityProviderService.";

/// The actions that the library answers.
#[derive(Clone, Copy, Debug, PartialEq, Eq, Structural)]
pub enum Action {
    AdminListDevices,
    AdminListUserAuthEvents,
    AdminResetUserPassword,
    AdminSetUserSettings,
}

impl Action {
    /// The wire name of the action.
    pub open spec fn name(&self) -> Seq<char> {
        match self {
            Action::AdminListDevices => ADMIN_LIST_DEVICES_NAME@,
            Action::AdminListUserAuthEvents => ADMIN_LIST_USER_AUTH_EVENTS_NAME@,
            Action::AdminResetUserPassword => ADMIN_RESET_USER_PASSWORD_NAME@,
            Action::AdminSetUserSettings => ADMIN_SET_USER_SETTINGS_NAME@,
        }
    }

    /// The protocol-qualified name of the action.
    pub open spec fn qualified_name(&self) -> Seq<char> {
        match self {
            Action::AdminListDevices => ADMIN_LIST_DEVICES_ACTION_NAME@,
            Action::AdminListUserAuthEvents => ADMIN_LIST_USER_AUTH_EVENTS_ACTION_NAME@,
            Action::AdminResetUserPassword => ADMIN_RESET_USER_PASSWORD_ACTION_NAME@,
            Action::AdminSetUserSettings => ADMIN_SET_USER_SETTINGS_ACTION_NAME@,
        }
    }

    /// The action that a protocol-qualified name selects, if there is one.
    pub open spec fn selected_by(name: Seq<char>) -> Option<Action> {
        if name == ADMIN_LIST_DEVICES_ACTION_NAME@ {
            Some(Action::AdminListDevices)
        } else if name == ADMIN_LIST_USER_AUTH_EVENTS_ACTION_NAME@ {
            Some(Action::AdminListUserAuthEvents)
        } else if name == ADMIN_RESET_USER_PASSWORD_ACTION_NAME@ {
            Some(Action::AdminResetUserPassword)
        } else if name == ADMIN_SET_USER_SETTINGS_ACTION_NAME@ {
            Some(Action::AdminSetUserSettings)
        } else {
            None
        }
    }

    /// The wire name of the action.
    pub fn to_name(&self) -> (name: &'static str)
        ensures
            name@ == self.name(),
    {
        match self {
            Action::AdminListDevices => ADMIN_LIST_DEVICES_NAME,
            Action::AdminListUserAuthEvents => ADMIN_LIST_USER_AUTH_EVENTS_NAME,
            Action::AdminResetUserPassword => ADMIN_RESET_USER_PASSWORD_NAME,
            Action::AdminSetUserSettings => ADMIN_SET_USER_SETTINGS_NAME,
        }
    }

    /// The protocol-qualified name of the action.
    pub fn to_qualified_name(&self) -> (name: &'static str)
        ensures
            name@ == self.qualified_name(),
    {
        match self {
            Action::AdminListDevices => ADMIN_LIST_DEVICES_ACTION_NAME,
            Action::AdminListUserAuthEvents => ADMIN_LIST_USER_AUTH_EVENTS_ACTION_NAME,
            Action::AdminResetUserPassword => ADMIN_RESET_USER_PASSWORD_ACTION_NAME,
            Action::AdminSetUserSettings => ADMIN_SET_USER_SETTINGS_ACTION_NAME,
        }
    }

    /// Finds the action that a call selects by its protocol-qualified name.
    /// A name that selects no action is left to the caller to refuse.
    pub fn from_qualified_name(name: &str) -> (action: Option<Action>)
        ensures
            action == Action::selected_by(name@),
    {
        if str_eq(name, ADMIN_LIST_DEVICES_ACTION_NAME) {
            Some(Action::AdminListDevices)
        } else if str_eq(name, ADMIN_LIST_USER_AUTH_EVENTS_ACTION_NAME) {
            Some(Action::AdminListUserAuthEvents)
        } else if str_eq(name, ADMIN_RESET_USER_PASSWORD_ACTION_NAME) {
            Some(Action::AdminResetUserPassword)
        } else if str_eq(name, ADMIN_SET_USER_SETTINGS_ACTION_NAME) {
            Some(Action::AdminSetUserSettings)
        } else {
            None
        }
    }
}

/// Every action has one identity: its qualified name is the service prefix
/// followed by its wire name, and selects that action and no other.
pub proof fn lemma_action_identity(action: Action)
    ensures
        action.qualified_name() == SERVICE_PREFIX@ + action.name(),
        Action::selected_by(action.qualified_name()) == Some(action),
{
    reveal_strlit("AWSCognitoIdentityProviderService.");
    reveal_strlit("AdminListDevices");
    reveal_strlit("AdminListUserAuthEvents");
    reveal_strlit("AdminResetUserPassword");
    reveal_strlit("AdminSetUserSettings");
    reveal_strlit("AWSCognitoIdentityProviderService.AdminListDevices");
    reveal_strlit("AWSCognitoIdentityProviderService.AdminListUserAuthEvents");
    reveal_strlit("AWSCognitoIdentityProviderService.AdminResetUserPassword");
    reveal_strlit("AWSCognitoIdentityProviderService.AdminSetUserSettings");
    assert(action.qualified_name().len() == 34 + action.name().len());
    assert(action.qualified_name() =~= SERVICE_PREFIX@ + action.name());
}

} // verus!
