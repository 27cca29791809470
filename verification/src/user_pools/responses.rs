//! The response pipeline that every action shares.
//!
//! For one call the pipeline takes the first branch that applies: a configured
//! override, a failed validation, or the rendering of the success body.

use super::configs::{lookup_spec, Config, KeyView, OverrideEntry, OverrideView};
use super::errors::{ActionError, CommonError, ErrorKind, ResponseError, ToStatusCode};
use crate::http::{status_code, status_number};
use crate::json::{escape, escaped};
use crate::templates::{
    fields_view, render_spec, rendered, template_for, Field, FieldView, RenderFailure, Templates,
    TemplatesView,
};
use hyper::StatusCode;
use vstd::prelude::*;

verus! {

/// The body of a response.
#[derive(Debug, PartialEq, Eq)]
pub enum Body {
    /// A success body, or a configured body, as text.
    Json(String),
    /// An error body: the name of the error kind and a message.
    Error { error_type: String, message: String },
}

pub enum BodyView {
    Json(Seq<char>),
    Error { error_type: Seq<char>, message: Seq<char> },
}

impl View for Body {
    type V = BodyView;

    open spec fn view(&self) -> BodyView {
        match self {
            Body::Json(text) => BodyView::Json(text@),
            Body::Error { error_type, message } => BodyView::Error {
                error_type: error_type@,
                message: message@,
            },
        }
    }
}

/// The body as it goes over the wire. A success body, or a configured body,
/// goes as it stands; an error body is a JSON object of the name of the error
/// kind and the message.
pub open spec fn wire_body(body: BodyView) -> Seq<char> {
    match body {
        BodyView::Json(text) => text,
        BodyView::Error { error_type, message } => "{\"__type\":\""@ + escaped(error_type)
            + "\",\"message\":\""@ + escaped(message) + "\"}"@,
    }
}

impl Body {
    /// Writes the body as it goes over the wire.
    pub fn to_json(&self) -> (text: String)
        ensures
            text@ == wire_body(self@),
    {
        match self {
            Body::Json(text) => text.clone(),
            Body::Error { error_type, message } => {
                let mut text = "{\"__type\":\"".to_owned();
                text.append(escape(error_type.as_str()).as_str());
                text.append("\",\"message\":\"");
                text.append(escape(message.as_str()).as_str());
                text.append("\"}");
                text
            },
        }
    }
}

/// What a call is answered with: a status and a body.
#[derive(Debug, PartialEq, Eq)]
pub struct Response {
    pub status: StatusCode,
    pub body: Body,
}

pub struct ResponseView {
    pub status: u16,
    pub body: BodyView,
}

impl View for Response {
    type V = ResponseView;

    open spec fn view(&self) -> ResponseView {
        ResponseView { status: status_number(self.status), body: self.body@ }
    }
}

/// The name of an action.
pub trait ToActionName {
    /// The wire name of the action.
    spec fn action_name() -> Seq<char>;

    /// The wire name of the action.
    fn to_action_name() -> (name: &'static str)
        ensures
            name@ == Self::action_name(),
    ;
}

/// A decoded request of one action: what the pipeline reads of it.
pub trait ActionRequest: ToActionName + Sized {
    /// The error kinds of the action.
    type E: ActionError;

    /// Whether the request meets the field rules of its action.
    spec fn valid(&self) -> bool;

    /// The target that the request names, by which an override may be scoped.
    spec fn target(&self) -> Option<Seq<char>>;

    /// The fields that a template can put into a body: those of the request
    /// that are present and have a text form. A text stands as it is, a number
    /// in decimal digits, a list as a JSON array. A map has no text form and is
    /// not offered.
    spec fn fields(&self) -> Seq<FieldView>;

    /// Checks the field rules of the action.
    fn validate(&self) -> (ok: bool)
        ensures
            ok == self.valid(),
    ;

    /// The target that the request names.
    fn target_key(&self) -> (target: Option<&String>)
        ensures
            self.target() == match target {
                Some(text) => Some(text@),
                None => None,
            },
    ;

    /// The fields of the request that are offered to templates, under their
    /// wire names.
    fn to_fields(&self) -> (fields: Vec<Field>)
        ensures
            fields_view(fields@) == self.fields(),
    ;
}

/// A request that can be answered.
pub trait ToResponse: ActionRequest {
    /// Answers the call: the override if one applies, else the failure of an
    /// invalid request, else the rendered body or the failure to render it.
    fn to_response(&self, config: &Config, templates: &Templates) -> (response: Response)
        ensures
            response@ == response_spec::<Self::E>(
                Self::action_name(),
                self.target(),
                self.valid(),
                self.fields(),
                config@,
                templates@,
            ),
    ;
}

/// The failure response for an error kind: its status, its name and a message.
pub open spec fn failure<E: ErrorKind>(error: E, message: Seq<char>) -> ResponseView {
    ResponseView {
        status: error.status(),
        body: BodyView::Error { error_type: error.name(), message },
    }
}

/// The success response with `body`.
pub open spec fn success(body: Seq<char>) -> ResponseView {
    ResponseView { status: 200, body: BodyView::Json(body) }
}

/// What an override forces. An error override gives the failure of the kind
/// that its name parses to in the action's scope, with the configured message;
/// a name that no kind carries gives an internal failure. A literal override
/// gives its body and status as they stand.
pub open spec fn override_response<E: ActionError>(entry: OverrideView) -> ResponseView {
    match entry {
        OverrideView::Error { name, message } => match ResponseError::<E>::parse(name) {
            Some(kind) => failure(kind, message),
            None => failure(CommonError::InternalFailure, CommonError::InternalFailure.name()),
        },
        OverrideView::Literal { status, body } => ResponseView {
            status,
            body: BodyView::Json(body),
        },
    }
}

/// What a call is answered with where no override applies: an invalid request
/// fails as an invalid parameter value, a valid one gets the rendered body, and
/// a body that cannot be rendered is an internal failure.
pub open spec fn plain_response(
    valid: bool,
    body: Result<Seq<char>, RenderFailure>,
) -> ResponseView {
    if !valid {
        failure(CommonError::InvalidParameterValue, CommonError::InvalidParameterValue.name())
    } else {
        match body {
            Ok(text) => success(text),
            Err(_) => failure(CommonError::InternalFailure, CommonError::InternalFailure.name()),
        }
    }
}

/// The response to a call of the action called `action`, by a request that
/// names `target`, is `valid` or not and offers `fields`, given the override
/// store and the templates. An override, where one applies, decides alone.
pub open spec fn response_spec<E: ActionError>(
    action: Seq<char>,
    target: Option<Seq<char>>,
    valid: bool,
    fields: Seq<FieldView>,
    config: Seq<(KeyView, OverrideView)>,
    templates: TemplatesView,
) -> ResponseView {
    match lookup_spec(config, action, target) {
        Some(entry) => override_response::<E>(entry),
        None => plain_response(valid, render_spec(templates, action, fields)),
    }
}

/// The success response with a rendered body.
pub fn json_response(body: String) -> (response: Response)
    ensures
        response@ == success(body@),
{
    Response { status: status_code(200), body: Body::Json(body) }
}

/// The failure response for an error kind, with a message.
pub fn error_response_with_message<E: ErrorKind>(error: &E, message: String) -> (response:
    Response)
    ensures
        response@ == failure(*error, message@),
{
    Response {
        status: error.to_status_code(),
        body: Body::Error { error_type: error.to_string(), message },
    }
}

/// The failure response for an error kind, with the kind's name as the message.
pub fn error_response<E: ErrorKind>(error: E) -> (response: Response)
    ensures
        response@ == failure(error, error.name()),
{
    let message = error.to_string();
    error_response_with_message(&error, message)
}

/// The response that a configured override forces for an action with the
/// error kinds `E`.
pub fn forced_response<E: ActionError>(entry: &OverrideEntry) -> (response: Response)
    ensures
        response@ == override_response::<E>(entry@),
{
    match entry {
        OverrideEntry::Error { name, message } => {
            match ResponseError::<E>::from_str(name.as_str()) {
                Ok(kind) => error_response_with_message(&kind, message.clone()),
                Err(_) => error_response(CommonError::InternalFailure),
            }
        },
        OverrideEntry::Literal { status, body } => Response {
            status: *status,
            body: Body::Json(body.clone()),
        },
    }
}

/// The response that the override store forces for a request, if it holds an
/// applicable entry. Neither validation nor rendering has a say in it.
pub fn config_response<R: ActionRequest>(request: &R, config: &Config) -> (response: Option<
    Response,
>)
    ensures
        match lookup_spec(config@, R::action_name(), request.target()) {
            Some(entry) => response matches Some(forced) && forced@ == override_response::<R::E>(
                entry,
            ),
            None => response is None,
        },
{
    match config.lookup(R::to_action_name(), request.target_key()) {
        Some(entry) => Some(forced_response::<R::E>(entry)),
        None => None,
    }
}

/// Answers a call: the override if one applies, else the failure of an
/// invalid request, else the rendered body or the failure to render it.
pub fn to_json_response<R: ActionRequest>(
    request: &R,
    config: &Config,
    templates: &Templates,
) -> (response: Response)
    ensures
        response@ == response_spec::<R::E>(
            R::action_name(),
            request.target(),
            request.valid(),
            request.fields(),
            config@,
            templates@,
        ),
{
    if let Some(response) = config_response(request, config) {
        return response;
    }
    if !request.validate() {
        return error_response(CommonError::InvalidParameterValue);
    }
    let fields = request.to_fields();
    match templates.render_template(R::to_action_name(), &fields) {
        Ok(body) => json_response(body),
        Err(_) => error_response(CommonError::InternalFailure),
    }
}

/// Answers a call whose body could not be decoded as a request of the action.
/// Such a call names no target and is not valid: an unscoped override still
/// decides, and without one the call fails as an invalid parameter value.
pub fn undecoded_response<R: ActionRequest>(config: &Config) -> (response: Response)
    ensures
        response@ == match lookup_spec(config@, R::action_name(), None) {
            Some(entry) => override_response::<R::E>(entry),
            None => failure(
                CommonError::InvalidParameterValue,
                CommonError::InvalidParameterValue.name(),
            ),
        },
{
    match config.lookup(R::to_action_name(), None) {
        Some(entry) => forced_response::<R::E>(entry),
        None => error_response(CommonError::InvalidParameterValue),
    }
}

/// Answers a call that selects no action.
pub fn unknown_action_response() -> (response: Response)
    ensures
        response@ == failure(CommonError::InvalidAction, CommonError::InvalidAction.name()),
{
    error_response(CommonError::InvalidAction)
}

/// Without an override, a request that breaks a field rule of its action is
/// answered with status 400 and the kind `InvalidParameterValue`, whatever
/// the templates hold.
pub proof fn lemma_invalid_request_rejected<E: ActionError>(
    action: Seq<char>,
    target: Option<Seq<char>>,
    fields: Seq<FieldView>,
    config: Seq<(KeyView, OverrideView)>,
    templates: TemplatesView,
)
    requires
        lookup_spec(config, action, target) is None,
    ensures
        response_spec::<E>(action, target, false, fields, config, templates).status == 400,
        response_spec::<E>(action, target, false, fields, config, templates).body
            == (BodyView::Error {
            error_type: "InvalidParameterValue"@,
            message: "InvalidParameterValue"@,
        }),
{
}

/// Without an override, a valid request whose template renders is answered
/// with status 200 and the body that the template registered for the action,
/// or else the default template, gives for the request.
pub proof fn lemma_valid_request_rendered<E: ActionError>(
    action: Seq<char>,
    target: Option<Seq<char>>,
    fields: Seq<FieldView>,
    config: Seq<(KeyView, OverrideView)>,
    templates: TemplatesView,
)
    requires
        lookup_spec(config, action, target) is None,
        rendered(template_for(templates, action), fields) is Ok,
    ensures
        response_spec::<E>(action, target, true, fields, config, templates) == success(
            rendered(template_for(templates, action), fields)->Ok_0,
        ),
{
}

/// Without an override, a valid request whose template does not render is
/// answered with status 500 and the kind `InternalFailure`.
pub proof fn lemma_render_failure_is_internal<E: ActionError>(
    action: Seq<char>,
    target: Option<Seq<char>>,
    fields: Seq<FieldView>,
    config: Seq<(KeyView, OverrideView)>,
    templates: TemplatesView,
)
    requires
        lookup_spec(config, action, target) is None,
        rendered(template_for(templates, action), fields) is Err,
    ensures
        response_spec::<E>(action, target, true, fields, config, templates).status == 500,
        response_spec::<E>(action, target, true, fields, config, templates).body
            == (BodyView::Error {
            error_type: "InternalFailure"@,
            message: "InternalFailure"@,
        }),
{
}

/// An override that applies decides the response alone: a valid and an
/// invalid request, whatever their fields and whatever the templates, get
/// what the override holds.
pub proof fn lemma_override_wins<E: ActionError>(
    action: Seq<char>,
    target: Option<Seq<char>>,
    valid: bool,
    fields: Seq<FieldView>,
    config: Seq<(KeyView, OverrideView)>,
    templates: TemplatesView,
    entry: OverrideView,
)
    requires
        lookup_spec(config, action, target) == Some(entry),
    ensures
        response_spec::<E>(action, target, valid, fields, config, templates)
            == override_response::<E>(entry),
        entry matches OverrideView::Literal { status, body } ==> response_spec::<E>(
            action,
            target,
            valid,
            fields,
            config,
            templates,
        ) == (ResponseView { status, body: BodyView::Json(body) }),
        entry matches OverrideView::Error { name, message } ==> forall|kind: ResponseError<E>|
            kind.name() == name ==> response_spec::<E>(
                action,
                target,
                valid,
                fields,
                config,
                templates,
            ) == failure(kind, message),
{
    if let OverrideView::Error { name, message } = entry {
        assert forall|kind: ResponseError<E>| kind.name() == name implies response_spec::<E>(
            action,
            target,
            valid,
            fields,
            config,
            templates,
        ) == failure(kind, message) by {
            kind.lemma_parse_of_name();
        }
    }
}

} // verus!
