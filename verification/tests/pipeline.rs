use fakey_cognito::http::status_code;
use fakey_cognito::json::{escape, hex_digit, optional_to_json};
use fakey_cognito::user_pools::data_types::{options_to_json, MFAOptionType};
use fakey_cognito::templates::{
    Field, RenderFailure, Segment, Template, Templates, DEFAULT_TEMPLATE,
};
use fakey_cognito::user_pools::{
    config_response, error_response, to_json_response, undecoded_response,
    unknown_action_response, ActionRequest, AdminListDevicesRequest,
    AdminListUserAuthEventsRequest, AdminResetUserPasswordRequest, AdminSetUserSettingsRequest,
    Action, Body, CommonError, Config, OverrideEntry, OverrideKey, Response, ToActionName,
    ToResponse, SERVICE_PREFIX,
    ADMIN_LIST_DEVICES_ACTION_NAME, ADMIN_LIST_DEVICES_NAME,
    ADMIN_LIST_USER_AUTH_EVENTS_ACTION_NAME, ADMIN_LIST_USER_AUTH_EVENTS_NAME,
    ADMIN_RESET_USER_PASSWORD_ACTION_NAME, ADMIN_RESET_USER_PASSWORD_NAME,
    ADMIN_SET_USER_SETTINGS_ACTION_NAME, ADMIN_SET_USER_SETTINGS_NAME,
};

fn text(s: &str) -> Segment {
    Segment::Text(s.to_string())
}

fn place(s: &str) -> Segment {
    Segment::Field(s.to_string())
}

fn default_templates() -> Templates {
    Templates::new(Template { segments: vec![text("{}")] })
}

fn devices_templates() -> Templates {
    let mut templates = default_templates();
    templates.register(
        ADMIN_LIST_DEVICES_NAME.to_string(),
        Template {
            segments: vec![
                text("{\"Devices\":[],\"Username\":\""),
                place("Username"),
                text("\",\"UserPoolId\":\""),
                place("UserPoolId"),
                text("\"}"),
            ],
        },
    );
    templates
}

fn failure(status: u16, kind: &str, message: &str) -> Response {
    Response {
        status: status_code(status),
        body: Body::Error { error_type: kind.to_string(), message: message.to_string() },
    }
}

fn devices_request(username: &str, user_pool_id: &str) -> AdminListDevicesRequest {
    AdminListDevicesRequest {
        username: Some(username.to_string()),
        user_pool_id: Some(user_pool_id.to_string()),
        ..Default::default()
    }
}

fn reset_request(username: &str, user_pool_id: &str) -> AdminResetUserPasswordRequest {
    AdminResetUserPasswordRequest {
        username: Some(username.to_string()),
        user_pool_id: Some(user_pool_id.to_string()),
        ..Default::default()
    }
}

fn error_override(action: &str, target: Option<&str>, name: &str, message: &str) -> (OverrideKey, OverrideEntry) {
    (
        OverrideKey { action: action.to_string(), target: target.map(str::to_string) },
        OverrideEntry::Error { name: name.to_string(), message: message.to_string() },
    )
}

#[test]
fn action_names() {
    assert_eq!(AdminListDevicesRequest::to_action_name(), "AdminListDevices");
    assert_eq!(AdminListUserAuthEventsRequest::to_action_name(), "AdminListUserAuthEvents");
    assert_eq!(AdminResetUserPasswordRequest::to_action_name(), "AdminResetUserPassword");
    assert_eq!(AdminSetUserSettingsRequest::to_action_name(), "AdminSetUserSettings");
    assert_eq!(ADMIN_LIST_DEVICES_NAME, "AdminListDevices");
    assert_eq!(ADMIN_LIST_USER_AUTH_EVENTS_NAME, "AdminListUserAuthEvents");
    assert_eq!(ADMIN_RESET_USER_PASSWORD_NAME, "AdminResetUserPassword");
    assert_eq!(ADMIN_SET_USER_SETTINGS_NAME, "AdminSetUserSettings");
    assert_eq!(ADMIN_LIST_DEVICES_ACTION_NAME, "AWSCognitoIdentityProviderService.AdminListDevices");
    assert_eq!(
        ADMIN_LIST_USER_AUTH_EVENTS_ACTION_NAME,
        "AWSCognitoIdentityProviderService.AdminListUserAuthEvents"
    );
    assert_eq!(
        ADMIN_RESET_USER_PASSWORD_ACTION_NAME,
        "AWSCognitoIdentityProviderService.AdminResetUserPassword"
    );
    assert_eq!(
        ADMIN_SET_USER_SETTINGS_ACTION_NAME,
        "AWSCognitoIdentityProviderService.AdminSetUserSettings"
    );
}

#[test]
fn blank_username_is_an_invalid_parameter_value() {
    let request = devices_request("", "pool-1");
    let response = request.to_response(&Config::new(), &devices_templates());
    assert_eq!(response.status.as_u16(), 400);
    assert_eq!(response, failure(400, "InvalidParameterValue", "InvalidParameterValue"));
}

#[test]
fn valid_request_gets_the_rendered_body() {
    let request = devices_request("alice", "pool-1");
    let response = request.to_response(&Config::new(), &devices_templates());
    assert_eq!(response.status.as_u16(), 200);
    assert_eq!(
        response.body,
        Body::Json("{\"Devices\":[],\"Username\":\"alice\",\"UserPoolId\":\"pool-1\"}".to_string())
    );
}

#[test]
fn action_without_template_gets_the_default() {
    let request = reset_request("alice", "pool-1");
    let response = request.to_response(&Config::new(), &devices_templates());
    assert_eq!(response, Response { status: status_code(200), body: Body::Json("{}".to_string()) });
    let settings = AdminSetUserSettingsRequest {
        mfa_options: Some(Vec::new()),
        username: Some("alice".to_string()),
        user_pool_id: Some("pool-1".to_string()),
    };
    let response = to_json_response(&settings, &Config::new(), &devices_templates());
    assert_eq!(response, Response { status: status_code(200), body: Body::Json("{}".to_string()) });
}

#[test]
fn override_forces_an_action_error_on_a_valid_request() {
    let mut config = Config::new();
    let (key, entry) =
        error_override("AdminResetUserPassword", None, "NotAuthorizedException", "not allowed");
    config.insert(key, entry);
    let response = reset_request("alice", "pool-1").to_response(&config, &default_templates());
    assert_eq!(response.status.as_u16(), 400);
    assert_eq!(response, failure(400, "NotAuthorizedException", "not allowed"));
}

#[test]
fn override_wins_over_validation() {
    let mut config = Config::new();
    let (key, entry) =
        error_override("AdminResetUserPassword", None, "InternalErrorException", "boom");
    config.insert(key, entry);
    let valid = reset_request("alice", "pool-1").to_response(&config, &default_templates());
    let invalid = reset_request("", "").to_response(&config, &default_templates());
    let absent = AdminResetUserPasswordRequest::default().to_response(&config, &default_templates());
    assert_eq!(valid, failure(500, "InternalErrorException", "boom"));
    assert_eq!(invalid, valid);
    assert_eq!(absent, valid);
}

#[test]
fn override_of_another_action_does_not_apply() {
    let mut config = Config::new();
    let (key, entry) =
        error_override("AdminResetUserPassword", None, "NotAuthorizedException", "not allowed");
    config.insert(key, entry);
    let response = devices_request("alice", "pool-1").to_response(&config, &default_templates());
    assert_eq!(response, Response { status: status_code(200), body: Body::Json("{}".to_string()) });
    assert_eq!(config_response(&devices_request("alice", "pool-1"), &config), None);
}

#[test]
fn common_error_override() {
    let mut config = Config::new();
    let (key, entry) = error_override("AdminListDevices", None, "ServiceUnavailable", "later");
    config.insert(key, entry);
    let response = devices_request("alice", "pool-1").to_response(&config, &default_templates());
    assert_eq!(response, failure(503, "ServiceUnavailable", "later"));
}

#[test]
fn unknown_configured_name_is_an_internal_failure() {
    let mut config = Config::new();
    let (key, entry) = error_override("AdminListDevices", None, "UserNotFoundException", "gone");
    config.insert(key, entry);
    let response = devices_request("alice", "pool-1").to_response(&config, &default_templates());
    assert_eq!(response, failure(500, "InternalFailure", "InternalFailure"));
}

#[test]
fn literal_override_is_returned_as_it_stands() {
    let mut config = Config::new();
    config.insert(
        OverrideKey { action: "AdminListDevices".to_string(), target: None },
        OverrideEntry::Literal { status: status_code(202), body: "{\"ok\":true}".to_string() },
    );
    let expected =
        Response { status: status_code(202), body: Body::Json("{\"ok\":true}".to_string()) };
    assert_eq!(devices_request("alice", "pool-1").to_response(&config, &devices_templates()), expected);
    assert_eq!(devices_request("", "").to_response(&config, &devices_templates()), expected);
}

#[test]
fn scoped_override_holds_for_its_target_only() {
    let mut config = Config::new();
    let (key, entry) =
        error_override("AdminListDevices", Some("pool-1"), "TooManyRequestsException", "slow down");
    config.insert(key, entry);
    let (key, entry) =
        error_override("AdminListDevices", Some("pool-2"), "ResourceNotFoundException", "no pool");
    config.insert(key, entry);
    let templates = default_templates();
    let first = devices_request("alice", "pool-1").to_response(&config, &templates);
    assert_eq!(first, failure(400, "TooManyRequestsException", "slow down"));
    let second = devices_request("alice", "pool-2").to_response(&config, &templates);
    assert_eq!(second, failure(400, "ResourceNotFoundException", "no pool"));
    let other = devices_request("alice", "pool-3").to_response(&config, &templates);
    assert_eq!(other.status.as_u16(), 200);
    let none = AdminListDevicesRequest { username: Some("alice".to_string()), ..Default::default() };
    assert_eq!(
        none.to_response(&config, &templates),
        failure(400, "InvalidParameterValue", "InvalidParameterValue")
    );
}

#[test]
fn first_applicable_override_wins() {
    let mut config = Config::new();
    let (key, entry) = error_override("AdminListDevices", None, "NotAuthorizedException", "first");
    config.insert(key, entry);
    let (key, entry) =
        error_override("AdminListDevices", Some("pool-1"), "InternalErrorException", "second");
    config.insert(key, entry);
    let found = config.lookup("AdminListDevices", Some(&"pool-1".to_string()));
    assert_eq!(
        found,
        Some(&OverrideEntry::Error {
            name: "NotAuthorizedException".to_string(),
            message: "first".to_string()
        })
    );
    assert_eq!(config.lookup("AdminListDevices", None), found);
    assert_eq!(config.lookup("adminlistdevices", None), None);
    assert_eq!(Config::new().lookup("AdminListDevices", None), None);
}

#[test]
fn render_failure_is_an_internal_failure() {
    let mut templates = default_templates();
    templates.register(
        ADMIN_LIST_USER_AUTH_EVENTS_NAME.to_string(),
        Template { segments: vec![text("{\"AuthEvents\":[],\"Next\":\""), place("NoSuchField"), text("\"}")] },
    );
    let request = AdminListUserAuthEventsRequest {
        username: Some("alice".to_string()),
        user_pool_id: Some("pool-1".to_string()),
        ..Default::default()
    };
    let response = request.to_response(&Config::new(), &templates);
    assert_eq!(response.status.as_u16(), 500);
    assert_eq!(response, failure(500, "InternalFailure", "InternalFailure"));
}

#[test]
fn error_response_carries_name_and_status() {
    assert_eq!(
        error_response(CommonError::MalformedQueryString),
        failure(404, "MalformedQueryString", "MalformedQueryString")
    );
    assert_eq!(
        error_response(CommonError::OptInRequired),
        failure(403, "OptInRequired", "OptInRequired")
    );
}

#[test]
fn request_fields_for_templates() {
    let request = AdminListDevicesRequest {
        limit: Some(60),
        pagination_token: None,
        username: Some("alice".to_string()),
        user_pool_id: Some("pool-1".to_string()),
    };
    let field = |name: &str, value: &str| Field { name: name.to_string(), value: value.to_string() };
    assert_eq!(
        request.to_fields(),
        vec![field("Limit", "60"), field("Username", "alice"), field("UserPoolId", "pool-1")]
    );
    assert_eq!(request.target_key(), Some(&"pool-1".to_string()));
    assert!(request.validate());
    let events = AdminListUserAuthEventsRequest {
        max_results: Some(255),
        next_token: Some("t".to_string()),
        username: None,
        user_pool_id: None,
    };
    assert_eq!(events.to_fields(), vec![field("MaxResults", "255"), field("NextToken", "t")]);
    assert_eq!(events.target_key(), None);
    assert!(!events.validate());
}

#[test]
fn templates_render_whole_or_not_at_all() {
    let fields = vec![
        Field { name: "A".to_string(), value: "1".to_string() },
        Field { name: "B".to_string(), value: "2".to_string() },
        Field { name: "A".to_string(), value: "3".to_string() },
    ];
    let template = Template { segments: vec![place("A"), text("-"), place("B"), text("-"), place("A")] };
    assert_eq!(template.render(&fields), Ok("1-2-1".to_string()));
    assert_eq!(Template { segments: Vec::new() }.render(&fields), Ok(String::new()));
    let missing = Template { segments: vec![text("x"), place("C")] };
    assert_eq!(missing.render(&fields), Err(RenderFailure));
    let malformed = Template { segments: vec![text("x"), place(""), text("y")] };
    assert_eq!(malformed.render(&fields), Err(RenderFailure));
    let empty_name = vec![Field { name: String::new(), value: "v".to_string() }];
    assert_eq!(malformed.render(&empty_name), Err(RenderFailure));
}

#[test]
fn first_registered_template_stays_in_use() {
    let mut templates = default_templates();
    templates.register("X".to_string(), Template { segments: vec![text("one")] });
    templates.register("X".to_string(), Template { segments: vec![text("two")] });
    assert_eq!(templates.render_template("X", &Vec::new()), Ok("one".to_string()));
    assert_eq!(templates.render_template("Y", &Vec::new()), Ok("{}".to_string()));
    assert_eq!(templates.lookup("X"), &Template { segments: vec![text("one")] });
}

#[test]
fn actions_are_selected_by_their_qualified_names() {
    use_all_actions();
    assert_eq!(
        Action::from_qualified_name("AWSCognitoIdentityProviderService.AdminListDevices"),
        Some(Action::AdminListDevices)
    );
    assert_eq!(Action::from_qualified_name("AdminListDevices"), None);
    assert_eq!(Action::from_qualified_name("AWSCognitoIdentityProviderService.NoSuchAction"), None);
    assert_eq!(Action::from_qualified_name(""), None);
}

fn use_all_actions() {
    let all = [
        Action::AdminListDevices,
        Action::AdminListUserAuthEvents,
        Action::AdminResetUserPassword,
        Action::AdminSetUserSettings,
    ];
    for action in all {
        let qualified = action.to_qualified_name();
        assert_eq!(qualified, format!("{}{}", SERVICE_PREFIX, action.to_name()));
        assert_eq!(Action::from_qualified_name(qualified), Some(action));
    }
}

#[test]
fn template_text_is_split_into_text_and_places() {
    assert_eq!(Template::parse(""), Template { segments: Vec::new() });
    assert_eq!(Template::parse("{}"), Template { segments: vec![text("{}")] });
    assert_eq!(Template::parse(DEFAULT_TEMPLATE), Template { segments: vec![text("{}")] });
    assert_eq!(
        Template::parse("{\"User\":\"{{Username}}\"}"),
        Template { segments: vec![text("{\"User\":\""), place("Username"), text("\"}")] }
    );
    assert_eq!(Template::parse("{{A}}{{B}}"), Template { segments: vec![place("A"), place("B")] });
    assert_eq!(
        Template::parse("{{ A }}x"),
        Template { segments: vec![place(" A "), text("x")] }
    );
    assert_eq!(Template::parse("}}"), Template { segments: vec![text("}}")] });
    assert_eq!(Template::parse("a{b}c"), Template { segments: vec![text("a{b}c")] });
    assert_eq!(
        Template::parse("{{{A}}}"),
        Template { segments: vec![place("{A"), text("}")] }
    );
    assert_eq!(
        Template::parse("\u{e9}{{\u{fc}}}\u{20ac}"),
        Template { segments: vec![text("\u{e9}"), place("\u{fc}"), text("\u{20ac}")] }
    );
    assert_eq!(Template::parse("{{}}"), Template { segments: vec![place("")] });
}

#[test]
fn unclosed_place_is_malformed() {
    let malformed = Template { segments: vec![place("")] };
    assert_eq!(Template::parse("{{A"), malformed);
    assert_eq!(Template::parse("{{A}"), malformed);
    assert_eq!(Template::parse("a{{"), malformed);
    assert_eq!(Template::parse("{{A}}b{{C"), malformed);
    assert_eq!(Template::parse("{{"), malformed);
    assert_eq!(malformed.render(&Vec::new()), Err(RenderFailure));
}

#[test]
fn malformed_template_is_an_internal_failure() {
    let mut templates = default_templates();
    templates.register(
        ADMIN_LIST_USER_AUTH_EVENTS_NAME.to_string(),
        Template::parse("{\"AuthEvents\":[],\"User\":\"{{Username\"}"),
    );
    let request = AdminListUserAuthEventsRequest {
        username: Some("alice".to_string()),
        user_pool_id: Some("pool-1".to_string()),
        ..Default::default()
    };
    let response = request.to_response(&Config::new(), &templates);
    assert_eq!(response, failure(500, "InternalFailure", "InternalFailure"));
}

#[test]
fn parsed_template_renders_the_request() {
    let mut templates = Templates::new(Template::parse(DEFAULT_TEMPLATE));
    templates.register(
        ADMIN_LIST_DEVICES_NAME.to_string(),
        Template::parse("{\"Devices\":[],\"Limit\":{{Limit}},\"Username\":\"{{Username}}\"}"),
    );
    let request = AdminListDevicesRequest {
        limit: Some(25),
        pagination_token: None,
        username: Some("alice".to_string()),
        user_pool_id: Some("pool-1".to_string()),
    };
    let response = request.to_response(&Config::new(), &templates);
    assert_eq!(
        response,
        Response {
            status: status_code(200),
            body: Body::Json("{\"Devices\":[],\"Limit\":25,\"Username\":\"alice\"}".to_string()),
        }
    );
    let no_limit = devices_request("alice", "pool-1");
    assert_eq!(
        no_limit.to_response(&Config::new(), &templates),
        failure(500, "InternalFailure", "InternalFailure")
    );
}

#[test]
fn error_body_on_the_wire() {
    let response = failure(400, "NotAuthorizedException", "not allowed");
    assert_eq!(
        response.body.to_json(),
        "{\"__type\":\"NotAuthorizedException\",\"message\":\"not allowed\"}"
    );
    let quoted = Body::Error {
        error_type: "InternalFailure".to_string(),
        message: "say \"no\" to C:\\temp\n\ttab\r\u{1}\u{1f} \u{e9}".to_string(),
    };
    assert_eq!(
        quoted.to_json(),
        "{\"__type\":\"InternalFailure\",\"message\":\"say \\\"no\\\" to C:\\\\temp\\n\\ttab\\r\\u0001\\u001f \u{e9}\"}"
    );
    assert_eq!(Body::Json("{\"a\":\"b\"}".to_string()).to_json(), "{\"a\":\"b\"}");
    assert_eq!(
        Body::Error { error_type: String::new(), message: String::new() }.to_json(),
        "{\"__type\":\"\",\"message\":\"\"}"
    );
}

#[test]
fn escaped_text_reads_back_as_json() {
    let samples = ["", "plain", "a\"b", "back\\slash", "line\nfeed", "\u{0}\u{8}\u{c}\u{1b}", "\u{7f}\u{20ac}"];
    for sample in samples {
        let quoted = format!("\"{}\"", escape(sample));
        let read: String = serde_json::from_str(&quoted).unwrap();
        assert_eq!(read, sample);
    }
    assert_eq!(escape("\u{b}"), "\\u000b");
    assert_eq!(hex_digit(15), "f");
    assert_eq!(hex_digit(9), "9");
}

#[test]
fn undecoded_call_is_invalid_unless_overridden() {
    assert_eq!(
        undecoded_response::<AdminListDevicesRequest>(&Config::new()),
        failure(400, "InvalidParameterValue", "InvalidParameterValue")
    );
    let mut config = Config::new();
    let (key, entry) =
        error_override("AdminListDevices", Some("pool-1"), "TooManyRequestsException", "scoped");
    config.insert(key, entry);
    assert_eq!(
        undecoded_response::<AdminListDevicesRequest>(&config),
        failure(400, "InvalidParameterValue", "InvalidParameterValue")
    );
    let (key, entry) = error_override("AdminListDevices", None, "NotAuthorizedException", "no");
    config.insert(key, entry);
    assert_eq!(
        undecoded_response::<AdminListDevicesRequest>(&config),
        failure(400, "NotAuthorizedException", "no")
    );
    assert_eq!(unknown_action_response(), failure(400, "InvalidAction", "InvalidAction"));
}

#[test]
fn access_denied_override_is_forbidden() {
    let mut config = Config::new();
    let (key, entry) = error_override("AdminListDevices", None, "AccessDeniedException", "no");
    config.insert(key, entry);
    let response = devices_request("alice", "pool-1").to_response(&config, &default_templates());
    assert_eq!(response, failure(403, "AccessDeniedException", "no"));
    assert_eq!(
        error_response(CommonError::NotAuthorized),
        failure(403, "NotAuthorized", "NotAuthorized")
    );
}

#[test]
fn mfa_options_as_json() {
    assert_eq!(options_to_json(&Vec::new()), "[]");
    let sms = MFAOptionType {
        attribute_name: Some("phone_number".to_string()),
        delivery_medium: Some("SMS".to_string()),
    };
    assert_eq!(sms.to_json(), "{\"AttributeName\":\"phone_number\",\"DeliveryMedium\":\"SMS\"}");
    let bare = MFAOptionType::default();
    assert_eq!(bare.to_json(), "{\"AttributeName\":null,\"DeliveryMedium\":null}");
    let quoted = MFAOptionType { attribute_name: Some("a\"b".to_string()), delivery_medium: None };
    let list = vec![sms, bare, quoted];
    let text = options_to_json(&list);
    assert_eq!(
        text,
        "[{\"AttributeName\":\"phone_number\",\"DeliveryMedium\":\"SMS\"},\
         {\"AttributeName\":null,\"DeliveryMedium\":null},\
         {\"AttributeName\":\"a\\\"b\",\"DeliveryMedium\":null}]"
    );
    let read: serde_json::Value = serde_json::from_str(&text).unwrap();
    assert_eq!(read.as_array().map(Vec::len), Some(3));
    assert_eq!(read[0]["DeliveryMedium"].as_str(), Some("SMS"));
    assert_eq!(read[2]["AttributeName"].as_str(), Some("a\"b"));
    assert_eq!(optional_to_json(&None), "null");
    assert_eq!(optional_to_json(&Some("x".to_string())), "\"x\"");
}

#[test]
fn settings_offer_their_options_to_templates() {
    let request = AdminSetUserSettingsRequest {
        mfa_options: Some(vec![MFAOptionType {
            attribute_name: Some("email".to_string()),
            delivery_medium: Some("EMAIL".to_string()),
        }]),
        username: Some("alice".to_string()),
        user_pool_id: Some("pool-1".to_string()),
    };
    let field = |name: &str, value: &str| Field { name: name.to_string(), value: value.to_string() };
    assert_eq!(
        request.to_fields(),
        vec![
            field("MFAOptions", "[{\"AttributeName\":\"email\",\"DeliveryMedium\":\"EMAIL\"}]"),
            field("Username", "alice"),
            field("UserPoolId", "pool-1"),
        ]
    );
    let mut templates = default_templates();
    templates.register(
        ADMIN_SET_USER_SETTINGS_NAME.to_string(),
        Template::parse("{\"MFAOptions\":{{MFAOptions}}}"),
    );
    let response = request.to_response(&Config::new(), &templates);
    assert_eq!(
        response,
        Response {
            status: status_code(200),
            body: Body::Json(
                "{\"MFAOptions\":[{\"AttributeName\":\"email\",\"DeliveryMedium\":\"EMAIL\"}]}"
                    .to_string()
            ),
        }
    );
    let absent = AdminSetUserSettingsRequest {
        mfa_options: None,
        username: Some("alice".to_string()),
        user_pool_id: Some("pool-1".to_string()),
    };
    assert_eq!(absent.to_fields(), vec![field("Username", "alice"), field("UserPoolId", "pool-1")]);
}

#[test]
fn client_metadata_is_not_offered_to_templates() {
    let mut metadata = std::collections::HashMap::new();
    metadata.insert("k".to_string(), "v".to_string());
    let request = AdminResetUserPasswordRequest {
        client_metadata: Some(metadata),
        username: Some("alice".to_string()),
        user_pool_id: Some("pool-1".to_string()),
    };
    let field = |name: &str, value: &str| Field { name: name.to_string(), value: value.to_string() };
    assert_eq!(request.to_fields(), vec![field("Username", "alice"), field("UserPoolId", "pool-1")]);
    let mut templates = default_templates();
    templates.register(
        ADMIN_RESET_USER_PASSWORD_NAME.to_string(),
        Template::parse("{\"Metadata\":{{ClientMetadata}}}"),
    );
    assert_eq!(
        request.to_response(&Config::new(), &templates),
        failure(500, "InternalFailure", "InternalFailure")
    );
}
