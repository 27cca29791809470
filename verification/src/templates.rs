//! The template registry and the rendering of success bodies.
//!
//! A template is a list of segments: literal text, and places where the value
//! of a request field is put in. The registry holds one template per action
//! name and a default for the actions that have none of their own.

use crate::common::{decimal, decimal_text, field_view, str_eq};
use vstd::prelude::*;

verus! {

/// One field of a decoded request that is present: its wire name and its value.
#[derive(Debug, PartialEq, Eq)]
pub struct Field {
    pub name: String,
    pub value: String,
}

pub struct FieldView {
    pub name: Seq<char>,
    pub value: Seq<char>,
}

impl View for Field {
    type V = FieldView;

    open spec fn view(&self) -> FieldView {
        FieldView { name: self.name@, value: self.value@ }
    }
}

/// The views of a list of fields, in order.
pub open spec fn fields_view(fields: Seq<Field>) -> Seq<FieldView> {
    Seq::new(fields.len(), |i: int| fields[i]@)
}

/// The field that a text value gives: one field where the value is present,
/// none where it is absent.
pub open spec fn text_field(name: Seq<char>, value: Option<Seq<char>>) -> Seq<FieldView> {
    match value {
        Some(text) => seq![FieldView { name, value: text }],
        None => Seq::empty(),
    }
}

/// The field that a small number gives: its decimal digits where the number
/// is present, no field where it is absent.
pub open spec fn number_field(name: Seq<char>, value: Option<u8>) -> Seq<FieldView> {
    match value {
        Some(number) => seq![FieldView { name, value: decimal_text(number) }],
        None => Seq::empty(),
    }
}

/// Adds the field called `name` to `fields` where `value` is present.
pub fn push_text_field(fields: &mut Vec<Field>, name: &str, value: &Option<String>)
    ensures
        fields_view(final(fields)@) == fields_view(old(fields)@) + text_field(
            name@,
            field_view(value),
        ),
{
    match value {
        Some(text) => {
            fields.push(Field { name: name.to_owned(), value: text.clone() });
            assert(fields_view(fields@) =~= fields_view(old(fields)@) + text_field(
                name@,
                field_view(value),
            ));
        },
        None => {
            assert(fields_view(fields@) =~= fields_view(old(fields)@) + text_field(
                name@,
                field_view(value),
            ));
        },
    }
}

/// Adds the field called `name` to `fields`, in decimal digits, where `value`
/// is present.
pub fn push_number_field(fields: &mut Vec<Field>, name: &str, value: &Option<u8>)
    ensures
        fields_view(final(fields)@) == fields_view(old(fields)@) + number_field(name@, *value),
{
    match value {
        Some(number) => {
            fields.push(Field { name: name.to_owned(), value: decimal(*number) });
            assert(fields_view(fields@) =~= fields_view(old(fields)@) + number_field(
                name@,
                *value,
            ));
        },
        None => {
            assert(fields_view(fields@) =~= fields_view(old(fields)@) + number_field(
                name@,
                *value,
            ));
        },
    }
}

/// One part of a template.
#[derive(Debug, PartialEq, Eq)]
pub enum Segment {
    /// Text that is copied to the body as it stands.
    Text(String),
    /// The name of a request field whose value is put in.
    Field(String),
}

pub enum SegmentView {
    Text(Seq<char>),
    Field(Seq<char>),
}

impl View for Segment {
    type V = SegmentView;

    open spec fn view(&self) -> SegmentView {
        match self {
            Segment::Text(text) => SegmentView::Text(text@),
            Segment::Field(name) => SegmentView::Field(name@),
        }
    }
}

/// The text of the template for actions whose success is a bare
/// acknowledgement.
pub const DEFAULT_TEMPLATE: &'static str = "{}";

/// A rendering rule: the segments of a success body, in order.
#[derive(Debug, PartialEq, Eq)]
pub struct Template {
    pub segments: Vec<Segment>,
}

impl View for Template {
    type V = Seq<SegmentView>;

    open spec fn view(&self) -> Seq<SegmentView> {
        Seq::new(self.segments@.len(), |i: int| self.segments@[i]@)
    }
}

/// A template could not be rendered for a request.
#[derive(Clone, Copy, Debug, PartialEq, Eq, Structural)]
pub struct RenderFailure;

/// The value of the first field called `name` from position `from` on.
pub open spec fn field_value_from(fields: Seq<FieldView>, name: Seq<char>, from: int) -> Option<
    Seq<char>,
>
    decreases fields.len() - from,
{
    if from < 0 || from >= fields.len() {
        None
    } else if fields[from].name == name {
        Some(fields[from].value)
    } else {
        field_value_from(fields, name, from + 1)
    }
}

/// The value of the first field called `name`, if the request has one.
pub open spec fn field_value(fields: Seq<FieldView>, name: Seq<char>) -> Option<Seq<char>> {
    field_value_from(fields, name, 0)
}

/// What one segment adds to a body. A place without a name is malformed, and a
/// place that names a field which the request does not offer cannot be filled.
pub open spec fn segment_text(segment: SegmentView, fields: Seq<FieldView>) -> Option<Seq<char>> {
    match segment {
        SegmentView::Text(text) => Some(text),
        SegmentView::Field(name) => if name.len() == 0 {
            None
        } else {
            field_value(fields, name)
        },
    }
}

/// The body that the first `upto` segments give: the texts of the segments
/// one after another, or a failure where one of them gives none.
pub open spec fn rendered_upto(segments: Seq<SegmentView>, fields: Seq<FieldView>, upto: int)
    -> Result<Seq<char>, RenderFailure>
    decreases upto,
{
    if upto <= 0 {
        Ok(Seq::empty())
    } else {
        match rendered_upto(segments, fields, upto - 1) {
            Err(failure) => Err(failure),
            Ok(body) => match segment_text(segments[upto - 1], fields) {
                Some(text) => Ok(body + text),
                None => Err(RenderFailure),
            },
        }
    }
}

/// The body that a template gives for the fields of a request.
pub open spec fn rendered(segments: Seq<SegmentView>, fields: Seq<FieldView>) -> Result<
    Seq<char>,
    RenderFailure,
> {
    rendered_upto(segments, fields, segments.len() as int)
}

/// A name that none of the fields carries has no value.
pub proof fn lemma_unnamed_field_has_no_value(fields: Seq<FieldView>, name: Seq<char>)
    requires
        forall|i: int| 0 <= i < fields.len() ==> (#[trigger] fields[i]).name != name,
    ensures
        field_value(fields, name) is None,
{
    lemma_unnamed_field_from(fields, name, 0);
}

proof fn lemma_unnamed_field_from(fields: Seq<FieldView>, name: Seq<char>, from: int)
    requires
        0 <= from,
        forall|i: int| 0 <= i < fields.len() ==> (#[trigger] fields[i]).name != name,
    ensures
        field_value_from(fields, name, from) is None,
    decreases fields.len() - from,
{
    if from < fields.len() {
        lemma_unnamed_field_from(fields, name, from + 1);
    }
}

/// Finds the value of the first field called `name`.
pub fn find_field<'a>(fields: &'a Vec<Field>, name: &str) -> (value: Option<&'a String>)
    ensures
        match value {
            Some(text) => field_value(fields_view(fields@), name@) == Some(text@),
            None => field_value(fields_view(fields@), name@) is None,
        },
{
    let mut i: usize = 0;
    while i < fields.len()
        invariant
            i <= fields.len(),
            field_value(fields_view(fields@), name@) == field_value_from(
                fields_view(fields@),
                name@,
                i as int,
            ),
        decreases fields.len() - i,
    {
        if str_eq(fields[i].name.as_str(), name) {
            return Some(&fields[i].value);
        }
        i += 1;
    }
    None
}

impl Template {
    /// Reads the definition of a template from its text. Places are written
    /// as a field name between double braces. A definition with a place that
    /// is never closed is malformed: the template that comes of it never
    /// renders. Templates are short and read once, so the text is scanned
    /// character by character.
    pub fn parse(text: &str) -> (template: Template)
        ensures
            template@ == template_of(text@),
    {
        let len = text.unicode_len();
        let mut segments: Vec<Segment> = Vec::new();
        let mut pos: usize = 0;
        let ghost mut done: Seq<SegmentView> = Seq::empty();
        assert(parsed_so_far(text@, done, 0)) by {
            if let Some(rest) = segments_from(text@, 0) {
                assert(done + rest =~= rest);
            }
        }
        while pos < len
            invariant
                len == text@.len(),
                pos <= len,
                done.len() == segments@.len(),
                forall|i: int| 0 <= i < done.len() ==> done[i] == #[trigger] segments@[i]@,
                parsed_so_far(text@, done, pos as int),
            decreases len - pos,
        {
            let ghost before = done;
            let ghost start = pos as int;
            if pair_at(text, len, pos, '{') {
                let close = find_close(text, len, pos + 2);
                if close >= len {
                    let broken = Template { segments: vec![Segment::Field(String::new())] };
                    assert(broken@ =~= malformed());
                    return broken;
                }
                let name = text.substring_char(pos + 2, close).to_owned();
                proof {
                    done = done.push(SegmentView::Field(name@));
                    if let Some(rest) = segments_from(text@, close + 2) {
                        assert(before + (seq![SegmentView::Field(name@)] + rest) =~= done + rest);
                    }
                }
                segments.push(Segment::Field(name));
                pos = close + 2;
            } else {
                let open = find_open(text, len, pos + 1);
                let literal = text.substring_char(pos, open).to_owned();
                proof {
                    done = done.push(SegmentView::Text(literal@));
                    if let Some(rest) = segments_from(text@, open as int) {
                        assert(before + (seq![SegmentView::Text(literal@)] + rest) =~= done + rest);
                    }
                }
                segments.push(Segment::Text(literal));
                pos = open;
            }
        }
        let template = Template { segments };
        assert(template@ =~= done);
        assert(done + Seq::<SegmentView>::empty() =~= done);
        template
    }

    /// Renders the template for the fields of a request. Either the whole body
    /// is returned or a failure: never a part of it.
    pub fn render(&self, fields: &Vec<Field>) -> (body: Result<String, RenderFailure>)
        ensures
            match body {
                Ok(text) => rendered(self@, fields_view(fields@)) == Ok::<Seq<char>, RenderFailure>(
                    text@,
                ),
                Err(_) => rendered(self@, fields_view(fields@)) is Err,
            },
    {
        let mut out = String::new();
        let mut i: usize = 0;
        while i < self.segments.len()
            invariant
                i <= self.segments.len(),
                self@.len() == self.segments@.len(),
                rendered_upto(self@, fields_view(fields@), i as int) == Ok::<
                    Seq<char>,
                    RenderFailure,
                >(out@),
            decreases self.segments.len() - i,
        {
            assert(self@[i as int] == self.segments@[i as int]@);
            match &self.segments[i] {
                Segment::Text(text) => {
                    out.append(text.as_str());
                },
                Segment::Field(name) => {
                    if name.as_str().is_empty() {
                        proof {
                            lemma_failure_stays(self@, fields_view(fields@), i as int + 1);
                        }
                        return Err(RenderFailure);
                    }
                    match find_field(fields, name.as_str()) {
                        Some(value) => {
                            out.append(value.as_str());
                        },
                        None => {
                            proof {
                                lemma_failure_stays(self@, fields_view(fields@), i as int + 1);
                            }
                            return Err(RenderFailure);
                        },
                    }
                },
            }
            i += 1;
        }
        Ok(out)
    }
}

/// Once a prefix of the segments fails to render, the whole template fails.
pub proof fn lemma_failure_stays(segments: Seq<SegmentView>, fields: Seq<FieldView>, upto: int)
    requires
        0 <= upto <= segments.len(),
        rendered_upto(segments, fields, upto) is Err,
    ensures
        rendered(segments, fields) is Err,
{
    lemma_failure_stays_upto(segments, fields, upto, segments.len() as int);
}

proof fn lemma_failure_stays_upto(
    segments: Seq<SegmentView>,
    fields: Seq<FieldView>,
    upto: int,
    end: int,
)
    requires
        0 <= upto <= end,
        rendered_upto(segments, fields, upto) is Err,
    ensures
        rendered_upto(segments, fields, end) is Err,
    decreases end - upto,
{
    if upto < end {
        lemma_failure_stays_upto(segments, fields, upto, end - 1);
    }
}

/// Whether a place opens at position `at` of a template's text: two opening
/// braces.
pub open spec fn opens_at(text: Seq<char>, at: int) -> bool {
    0 <= at && at + 1 < text.len() && text[at] == '{' && text[at + 1] == '{'
}

/// Whether a place closes at position `at` of a template's text: two closing
/// braces.
pub open spec fn closes_at(text: Seq<char>, at: int) -> bool {
    0 <= at && at + 1 < text.len() && text[at] == '}' && text[at + 1] == '}'
}

/// The first position from `from` on at which a place opens, or the length of
/// the text where none does.
pub open spec fn next_open(text: Seq<char>, from: int) -> int
    decreases text.len() - from,
{
    if from < 0 || from >= text.len() {
        text.len() as int
    } else if opens_at(text, from) {
        from
    } else {
        next_open(text, from + 1)
    }
}

/// The first position from `from` on at which a place closes, or the length
/// of the text where none does.
pub open spec fn next_close(text: Seq<char>, from: int) -> int
    decreases text.len() - from,
{
    if from < 0 || from >= text.len() {
        text.len() as int
    } else if closes_at(text, from) {
        from
    } else {
        next_close(text, from + 1)
    }
}

/// The segments of the text of a template from position `pos` on. A place is
/// the name between two opening and the next two closing braces; everything
/// else is text up to the next place. A place that is never closed makes the
/// definition malformed.
pub open spec fn segments_from(text: Seq<char>, pos: int) -> Option<Seq<SegmentView>>
    decreases text.len() - pos,
    via segments_from_decreases
{
    if pos < 0 || pos >= text.len() {
        Some(Seq::empty())
    } else if opens_at(text, pos) {
        let close = next_close(text, pos + 2);
        if close >= text.len() {
            None
        } else {
            match segments_from(text, close + 2) {
                Some(rest) => Some(
                    seq![SegmentView::Field(text.subrange(pos + 2, close))] + rest,
                ),
                None => None,
            }
        }
    } else {
        let open = next_open(text, pos + 1);
        match segments_from(text, open) {
            Some(rest) => Some(seq![SegmentView::Text(text.subrange(pos, open))] + rest),
            None => None,
        }
    }
}

#[via_fn]
proof fn segments_from_decreases(text: Seq<char>, pos: int) {
    if 0 <= pos < text.len() {
        if opens_at(text, pos) {
            lemma_next_close_bounds(text, pos + 2);
        } else {
            lemma_next_open_bounds(text, pos + 1);
        }
    }
}

/// The template that stands for a malformed definition: one place without a
/// name, which never renders.
pub open spec fn malformed() -> Seq<SegmentView> {
    seq![SegmentView::Field(Seq::empty())]
}

/// The template that a text defines.
pub open spec fn template_of(text: Seq<char>) -> Seq<SegmentView> {
    match segments_from(text, 0) {
        Some(segments) => segments,
        None => malformed(),
    }
}

/// A scan for the next place finds a position between its start and the end
/// of the text, and short of the end a place opens there.
pub proof fn lemma_next_open_bounds(text: Seq<char>, from: int)
    requires
        0 <= from <= text.len(),
    ensures
        from <= next_open(text, from) <= text.len(),
        next_open(text, from) < text.len() ==> opens_at(text, next_open(text, from)),
    decreases text.len() - from,
{
    if from < text.len() && !opens_at(text, from) {
        lemma_next_open_bounds(text, from + 1);
    }
}

/// A scan for the end of a place finds a position between its start and the
/// end of the text, and short of the end a place closes there.
pub proof fn lemma_next_close_bounds(text: Seq<char>, from: int)
    requires
        0 <= from <= text.len(),
    ensures
        from <= next_close(text, from) <= text.len(),
        next_close(text, from) < text.len() ==> closes_at(text, next_close(text, from)),
    decreases text.len() - from,
{
    if from < text.len() && !closes_at(text, from) {
        lemma_next_close_bounds(text, from + 1);
    }
}

/// A malformed definition renders for no request.
pub proof fn lemma_malformed_never_renders(fields: Seq<FieldView>)
    ensures
        rendered(malformed(), fields) is Err,
{
    assert(rendered_upto(malformed(), fields, 0) is Ok);
    assert(segment_text(malformed()[0], fields) is None);
}

/// A text in which no place opens defines a template that renders, for every
/// request, as the text itself.
pub proof fn lemma_plain_text_renders_itself(text: Seq<char>, fields: Seq<FieldView>)
    requires
        next_open(text, 0) == text.len(),
    ensures
        rendered(template_of(text), fields) == Ok::<Seq<char>, RenderFailure>(text),
{
    if text.len() == 0 {
        assert(template_of(text) =~= Seq::empty());
        assert(text =~= Seq::empty());
    } else {
        let whole = seq![SegmentView::Text(text)];
        assert(text.subrange(0, text.len() as int) =~= text);
        assert(segments_from(text, text.len() as int) == Some(Seq::<SegmentView>::empty()));
        assert(whole + Seq::<SegmentView>::empty() =~= whole);
        assert(template_of(text) == whole);
        assert(rendered_upto(whole, fields, 0) == Ok::<Seq<char>, RenderFailure>(Seq::empty()));
        assert(Seq::<char>::empty() + text =~= text);
    }
}

/// Whether `text` holds `mark` at the positions `at` and `at + 1`.
fn pair_at(text: &str, len: usize, at: usize, mark: char) -> (found: bool)
    requires
        len == text@.len(),
        at < len,
    ensures
        found == (at + 1 < len && text@[at as int] == mark && text@[at + 1] == mark),
{
    at + 1 < len && text.get_char(at) == mark && text.get_char(at + 1) == mark
}

/// The first position from `from` on at which a place opens.
fn find_open(text: &str, len: usize, from: usize) -> (open: usize)
    requires
        len == text@.len(),
        from <= len,
    ensures
        open == next_open(text@, from as int),
        from <= open <= len,
        open < len ==> opens_at(text@, open as int),
{
    let mut at: usize = from;
    while at < len
        invariant
            len == text@.len(),
            from <= at <= len,
            next_open(text@, from as int) == next_open(text@, at as int),
        decreases len - at,
    {
        if pair_at(text, len, at, '{') {
            return at;
        }
        at += 1;
    }
    at
}

/// The first position from `from` on at which a place closes.
fn find_close(text: &str, len: usize, from: usize) -> (close: usize)
    requires
        len == text@.len(),
        from <= len,
    ensures
        close == next_close(text@, from as int),
        from <= close <= len,
        close < len ==> closes_at(text@, close as int),
{
    let mut at: usize = from;
    while at < len
        invariant
            len == text@.len(),
            from <= at <= len,
            next_close(text@, from as int) == next_close(text@, at as int),
        decreases len - at,
    {
        if pair_at(text, len, at, '}') {
            return at;
        }
        at += 1;
    }
    at
}

/// What is parsed from the start equals what was parsed so far followed by
/// what is parsed from `pos` on.
spec fn parsed_so_far(text: Seq<char>, done: Seq<SegmentView>, pos: int) -> bool {
    segments_from(text, 0) == match segments_from(text, pos) {
        Some(rest) => Some(done + rest),
        None => None,
    }
}

/// The registry: the templates that are registered under an action name, and
/// the default for every other action.
#[derive(Debug)]
pub struct Templates {
    pub named: Vec<(String, Template)>,
    pub default: Template,
}

pub struct TemplatesView {
    pub named: Seq<(Seq<char>, Seq<SegmentView>)>,
    pub default: Seq<SegmentView>,
}

impl View for Templates {
    type V = TemplatesView;

    open spec fn view(&self) -> TemplatesView {
        TemplatesView {
            named: Seq::new(self.named@.len(), |i: int| (self.named@[i].0@, self.named@[i].1@)),
            default: self.default@,
        }
    }
}

/// The template registered first under `name` from position `from` on, or
/// the default where there is none.
pub open spec fn template_from(templates: TemplatesView, name: Seq<char>, from: int) -> Seq<
    SegmentView,
>
    decreases templates.named.len() - from,
{
    if from < 0 || from >= templates.named.len() {
        templates.default
    } else if templates.named[from].0 == name {
        templates.named[from].1
    } else {
        template_from(templates, name, from + 1)
    }
}

/// The template that renders the bodies of the action called `name`.
pub open spec fn template_for(templates: TemplatesView, name: Seq<char>) -> Seq<SegmentView> {
    template_from(templates, name, 0)
}

/// The success body of the action called `name` for the fields of a request.
pub open spec fn render_spec(templates: TemplatesView, name: Seq<char>, fields: Seq<FieldView>)
    -> Result<Seq<char>, RenderFailure> {
    rendered(template_for(templates, name), fields)
}

impl Templates {
    /// A registry that holds only a default template.
    pub fn new(default: Template) -> (templates: Templates)
        ensures
            templates@.named.len() == 0,
            templates@.default == default@,
    {
        Templates { named: Vec::new(), default }
    }

    /// Registers `template` under `name`. A template registered earlier under
    /// the same name stays the one in use.
    pub fn register(&mut self, name: String, template: Template)
        ensures
            final(self)@.named == old(self)@.named.push((name@, template@)),
            final(self)@.default == old(self)@.default,
    {
        self.named.push((name, template));
        assert(self@.named =~= old(self)@.named.push((name@, template@)));
    }

    /// The template for the action called `name`: the one registered under
    /// that name, or the default.
    pub fn lookup(&self, name: &str) -> (template: &Template)
        ensures
            template@ == template_for(self@, name@),
    {
        let mut i: usize = 0;
        while i < self.named.len()
            invariant
                i <= self.named.len(),
                self@.named.len() == self.named@.len(),
                template_for(self@, name@) == template_from(self@, name@, i as int),
            decreases self.named.len() - i,
        {
            assert(self@.named[i as int] == (self.named@[i as int].0@, self.named@[i as int].1@));
            if str_eq(self.named[i].0.as_str(), name) {
                return &self.named[i].1;
            }
            i += 1;
        }
        &self.default
    }

    /// Renders the success body of the action called `name`.
    pub fn render_template(&self, name: &str, fields: &Vec<Field>) -> (body: Result<
        String,
        RenderFailure,
    >)
        ensures
            match body {
                Ok(text) => render_spec(self@, name@, fields_view(fields@)) == Ok::<
                    Seq<char>,
                    RenderFailure,
                >(text@),
                Err(_) => render_spec(self@, name@, fields_view(fields@)) is Err,
            },
    {
        self.lookup(name).render(fields)
    }
}

} // verus!
