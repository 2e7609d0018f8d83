//! [`SettingsError`]: a value rejected by a validating settings setter.

use vstd::prelude::*;

use crate::error::{Category, Error, ErrorView};
use crate::text::{int_text, push_int, push_str, string_of};

verus! {

/// A value (or combination of values) outside a setting's safe domain,
/// rejected before anything reaches libtorrent.
#[derive(Clone, Debug, PartialEq, Eq)]
pub struct SettingsError {
    setting: &'static str,
    message: String,
}

/// The mathematical content of a [`SettingsError`].
pub ghost struct SettingsErrorView {
    pub setting: Seq<char>,
    pub message: Seq<char>,
}

impl View for SettingsError {
    type V = SettingsErrorView;

    closed spec fn view(&self) -> SettingsErrorView {
        SettingsErrorView { setting: self.setting@, message: self.message@ }
    }
}

/// The `Display` text of a settings error: `"{setting}: {message}"`.
pub open spec fn settings_error_text(e: SettingsErrorView) -> Seq<char> {
    e.setting + ": "@ + e.message
}

/// The standard out-of-domain message.
pub open spec fn range_message(value: i32, lo: i32, hi: i32) -> Seq<char> {
    int_text(value as int) + " is outside the valid range "@ + int_text(lo as int) + "..="@
        + int_text(hi as int)
}

impl SettingsError {
    pub fn new(setting: &'static str, message: String) -> (r: SettingsError)
        ensures
            r@ == (SettingsErrorView { setting: setting@, message: message@ }),
    {
        SettingsError { setting, message }
    }

    /// The snake_case libtorrent setting name — or, for the grouped
    /// setters, the group name (e.g. `"proxy"`).
    pub fn setting(&self) -> (r: &'static str)
        ensures
            r@ == self@.setting,
    {
        self.setting
    }

    /// What was wrong with the value. Value-centric and free of the
    /// setting name, so callers can prefix their own field path.
    pub fn message(&self) -> (r: &str)
        ensures
            r@ == self@.message,
    {
        self.message.as_str()
    }

    /// The `Display` text: `"{setting}: {message}"`.
    pub fn to_string(&self) -> (r: String)
        ensures
            r@ == settings_error_text(self@),
    {
        let mut s = string_of(self.setting);
        push_str(&mut s, ": ");
        push_str(&mut s, self.message.as_str());
        s
    }

    /// The crate-level error for this rejection: a bindings error whose
    /// message is the `Display` text.
    pub fn to_error(&self) -> (r: Error)
        ensures
            r@ == (ErrorView {
                value: 0,
                category: Category::Bindings,
                message: settings_error_text(self@),
            }),
    {
        let text = self.to_string();
        Error::binding(text.as_str())
    }
}

impl From<SettingsError> for Error {
    /// The crate-level error for a rejection (see [`SettingsError::to_error`]).
    fn from(e: SettingsError) -> (r: Error)
        ensures
            r@ == (ErrorView {
                value: 0,
                category: Category::Bindings,
                message: settings_error_text(e@),
            }),
    {
        e.to_error()
    }
}

/// What `From` gives is stated by the `ensures` of `from` itself: the
/// error holds a `String`, whose value a spec function cannot build, so
/// no `from_spec` is claimed.
impl vstd::std_specs::convert::FromSpecImpl<SettingsError> for Error {
    open spec fn obeys_from_spec() -> bool {
        false
    }

    open spec fn from_spec(v: SettingsError) -> Error {
        arbitrary()
    }
}

/// Checks a value against a setting's accepted range `lo..=hi`, producing
/// the standard out-of-domain error.
pub fn in_range(setting: &'static str, value: i32, lo: i32, hi: i32) -> (r: Result<
    (),
    SettingsError,
>)
    ensures
        lo <= value <= hi ==> r is Ok,
        !(lo <= value <= hi) ==> (r matches Err(e) && e@ == (SettingsErrorView {
            setting: setting@,
            message: range_message(value, lo, hi),
        })),
{
    if lo <= value && value <= hi {
        Ok(())
    } else {
        let mut m = String::new();
        push_int(&mut m, value as i64);
        push_str(&mut m, " is outside the valid range ");
        push_int(&mut m, lo as i64);
        push_str(&mut m, "..=");
        push_int(&mut m, hi as i64);
        Err(SettingsError::new(setting, m))
    }
}

} // verus!
