use crate::common::field_view;
use crate::json::{optional_text, optional_to_json};
use vstd::prelude::*;

verus! {

/// One MFA option of a user: the attribute that a code is sent to and the
/// medium by which it is sent.
#[derive(Debug)]
pub struct MFAOptionType {
    pub attribute_name: Option<String>,
    pub delivery_medium: Option<String>,
}

pub struct MFAOptionView {
    pub attribute_name: Option<Seq<char>>,
    pub delivery_medium: Option<Seq<char>>,
}

impl View for MFAOptionType {
    type V = MFAOptionView;

    open spec fn view(&self) -> MFAOptionView {
        MFAOptionView {
            attribute_name: field_view(&self.attribute_name),
            delivery_medium: field_view(&self.delivery_medium),
        }
    }
}

impl Default for MFAOptionType {
    /// The option with both fields absent.
    fn default() -> (option: Self)
        ensures
            option.attribute_name is None,
            option.delivery_medium is None,
    {
        MFAOptionType { attribute_name: None, delivery_medium: None }
    }
}

/// The views of a list of options, in order.
pub open spec fn options_view(options: Seq<MFAOptionType>) -> Seq<MFAOptionView> {
    Seq::new(options.len(), |i: int| options[i]@)
}

/// One option as a JSON object of its two fields, an absent field as `null`.
pub open spec fn option_text(option: MFAOptionView) -> Seq<char> {
    "{\"AttributeName\":"@ + optional_text(option.attribute_name) + ",\"DeliveryMedium\":"@
        + optional_text(option.delivery_medium) + "}"@
}

/// The first `upto` options as JSON objects with a comma between two of them.
pub open spec fn options_joined(options: Seq<MFAOptionView>, upto: int) -> Seq<char>
    decreases upto,
{
    if upto <= 0 {
        Seq::empty()
    } else if upto == 1 {
        option_text(options[0])
    } else {
        options_joined(options, upto - 1) + ","@ + option_text(options[upto - 1])
    }
}

/// A list of options as a JSON array.
pub open spec fn options_text(options: Seq<MFAOptionView>) -> Seq<char> {
    "["@ + options_joined(options, options.len() as int) + "]"@
}

/// The text that stands for an optional list of options: the JSON array of a
/// list that is present, nothing for one that is absent.
pub open spec fn optional_options_text(options: &Option<Vec<MFAOptionType>>) -> Option<
    Seq<char>,
> {
    match options {
        Some(list) => Some(options_text(options_view(list@))),
        None => None,
    }
}

impl MFAOptionType {
    /// Writes the option as a JSON object.
    pub fn to_json(&self) -> (text: String)
        ensures
            text@ == option_text(self@),
    {
        let mut text = "{\"AttributeName\":".to_owned();
        text.append(optional_to_json(&self.attribute_name).as_str());
        text.append(",\"DeliveryMedium\":");
        text.append(optional_to_json(&self.delivery_medium).as_str());
        text.append("}");
        text
    }
}

/// Writes a list of options as a JSON array.
pub fn options_to_json(options: &Vec<MFAOptionType>) -> (text: String)
    ensures
        text@ == options_text(options_view(options@)),
{
    let mut joined = String::new();
    let mut i: usize = 0;
    while i < options.len()
        invariant
            i <= options.len(),
            options_view(options@).len() == options@.len(),
            joined@ == options_joined(options_view(options@), i as int),
        decreases options.len() - i,
    {
        assert(options_view(options@)[i as int] == options@[i as int]@);
        if i > 0 {
            joined.append(",");
        }
        joined.append(options[i].to_json().as_str());
        assert(i == 0 ==> joined@ =~= option_text(options@[i as int]@));
        i += 1;
    }
    let mut text = "[".to_owned();
    text.append(joined.as_str());
    text.append("]");
    text
}

/// Writes the text that stands for an optional list of options.
pub fn optional_options_to_json(options: &Option<Vec<MFAOptionType>>) -> (text: Option<String>)
    ensures
        field_view(&text) == optional_options_text(options),
{
    match options {
        Some(list) => Some(options_to_json(list)),
        None => None,
    }
}

} // verus!
