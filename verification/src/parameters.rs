//! Typed inputs of a parameterized query. Whatever its kind, a parameter
//! travels to the service as a pair of strings.

use crate::parse_utils::{starts_with_date_time, starts_with_sign, Timestamp};
use vstd::prelude::*;
use vstd::std_specs::cmp::PartialEqSpecImpl;
use vstd::string::StrSliceExecFns;

verus! {

/// The four kinds of parameter that the service knows.
#[derive(Debug, Clone, Copy, PartialEq, Eq, Structural)]
pub enum ParameterType {
    /// Free text, such as an address or a hash.
    Text,
    /// A number, written out as text.
    Number,
    /// One option of a fixed list.
    Enum,
    /// A point in time, to the second.
    Date,
}

/// One named input of a parameterized query.
///
/// The name has to match the name that the query declares; the service,
/// not this library, rejects a name that does not.
#[derive(Debug)]
pub struct Parameter {
    /// Name of the parameter as the query declares it.
    pub key: String,
    /// Kind of the parameter.
    pub ptype: ParameterType,
    /// Value as it is sent to the service.
    pub value: String,
}

/// Mathematical content of a [`Parameter`].
pub struct ParameterView {
    /// Name of the parameter.
    pub key: Seq<char>,
    /// Kind of the parameter.
    pub ptype: ParameterType,
    /// Value as it is sent.
    pub value: Seq<char>,
}

impl View for Parameter {
    type V = ParameterView;

    open spec fn view(&self) -> ParameterView {
        ParameterView { key: self.key@, ptype: self.ptype, value: self.value@ }
    }
}

impl PartialEq for Parameter {
    fn eq(&self, other: &Parameter) -> (same: bool) {
        self.key == other.key && self.ptype == other.ptype && self.value == other.value
    }
}

impl PartialEqSpecImpl for Parameter {
    open spec fn obeys_eq_spec() -> bool {
        true
    }

    open spec fn eq_spec(&self, other: &Parameter) -> bool {
        self@ == other@
    }
}

/// Number of characters in `YYYY-MM-DD HH:MM:SS`.
pub const DATE_VALUE_LEN: usize = 19;

/// A rendered instant cut down to second precision: its first nineteen
/// characters, or all of it where it is shorter.
pub open spec fn seconds_precision(text: Seq<char>) -> Seq<char> {
    if text.len() <= DATE_VALUE_LEN {
        text
    } else {
        text.subrange(0, DATE_VALUE_LEN as int)
    }
}

/// Cuts a rendered instant down to second precision, dropping the
/// fraction of a second and the zone suffix that follow.
pub fn truncate_to_seconds(text: &str) -> (cut: String)
    ensures
        cut@ == seconds_precision(text@),
{
    let length = text.unicode_len();
    if length <= DATE_VALUE_LEN {
        text.to_owned()
    } else {
        text.substring_char(0, DATE_VALUE_LEN).to_owned()
    }
}

impl Parameter {
    /// Builds a date parameter. The instant is rendered in UTC and cut to
    /// whole seconds: `YYYY-MM-DD HH:MM:SS` for the years 0 to 9999, with
    /// neither the fraction of a second nor the zone.
    pub fn date(name: &str, value: Timestamp) -> (parameter: Parameter)
        ensures
            parameter@ == (ParameterView {
                key: name@,
                ptype: ParameterType::Date,
                value: seconds_precision(value.display()),
            }),
            parameter.value@.len() == DATE_VALUE_LEN,
            starts_with_date_time(parameter.value@) || starts_with_sign(parameter.value@),
    {
        let rendered = value.utc_text();
        Parameter {
            key: name.to_owned(),
            ptype: ParameterType::Date,
            value: truncate_to_seconds(rendered.as_str()),
        }
    }

    /// Builds a text parameter.
    pub fn text(name: &str, value: &str) -> (parameter: Parameter)
        ensures
            parameter@ == (ParameterView {
                key: name@,
                ptype: ParameterType::Text,
                value: value@,
            }),
    {
        Parameter { key: name.to_owned(), ptype: ParameterType::Text, value: value.to_owned() }
    }

    /// Builds a number parameter. The value is passed on as it is written.
    pub fn number(name: &str, value: &str) -> (parameter: Parameter)
        ensures
            parameter@ == (ParameterView {
                key: name@,
                ptype: ParameterType::Number,
                value: value@,
            }),
    {
        Parameter { key: name.to_owned(), ptype: ParameterType::Number, value: value.to_owned() }
    }

    /// Builds a list parameter. The value is passed on as it is written.
    pub fn list(name: &str, value: &str) -> (parameter: Parameter)
        ensures
            parameter@ == (ParameterView {
                key: name@,
                ptype: ParameterType::Enum,
                value: value@,
            }),
    {
        Parameter { key: name.to_owned(), ptype: ParameterType::Enum, value: value.to_owned() }
    }
}

} // verus!
