//! The failures of an expansion, each with the diagnostic it is reported by.

use crate::config::ConfigFault;
use vstd::prelude::*;
use vstd::string::*;

verus! {

/// Why an expansion produced no output. Every failure is fatal: no partial
/// output exists beside it.
#[derive(Debug)]
pub enum ExpandError {
    /// The attribute holds an identifier other than `fetch`, `scheduled` and
    /// `respond_with_errors`: the identifier.
    InvalidAttribute(String),
    /// The attribute names neither `fetch` nor `scheduled`.
    MissingHandlerKind,
    /// The attribute's arguments or the annotated item did not parse.
    Syntax(syn::Error),
    /// The binding export generator refused the adapter: what it reported.
    ExportFailed(String),
}

/// An [`ExpandError`] as contracts speak of it.
pub enum ExpandFault {
    Config(ConfigFault),
    Syntax(syn::Error),
    ExportFailed(Seq<char>),
}

impl View for ExpandError {
    type V = ExpandFault;

    open spec fn view(&self) -> ExpandFault {
        match self {
            ExpandError::InvalidAttribute(token) => ExpandFault::Config(
                ConfigFault::UnknownToken(token@),
            ),
            ExpandError::MissingHandlerKind => ExpandFault::Config(ConfigFault::MissingSelector),
            ExpandError::Syntax(error) => ExpandFault::Syntax(*error),
            ExpandError::ExportFailed(report) => ExpandFault::ExportFailed(report@),
        }
    }
}

/// The diagnostic of a configuration fault.
pub open spec fn config_diagnostic(fault: ConfigFault) -> Seq<char> {
    match fault {
        ConfigFault::UnknownToken(token) => "Invalid attribute: "@ + token,
        ConfigFault::MissingSelector =>
            "must have either 'fetch' or 'scheduled' attribute, e.g. #[event(fetch)]"@,
    }
}

/// The diagnostic of a refusal by the binding export generator.
pub open spec fn export_diagnostic(report: Seq<char>) -> Seq<char> {
    "wasm_bindgen macro failed to expand: "@ + report
}

impl ExpandError {
    /// The text under which the failure is reported at build time. A syntax
    /// error is reported in the words of the parser.
    pub fn message(&self) -> (text: String)
        ensures
            self@ matches ExpandFault::Config(fault) ==> text@ == config_diagnostic(fault),
            self@ matches ExpandFault::ExportFailed(report) ==> text@ == export_diagnostic(report),
    {
        match self {
            ExpandError::InvalidAttribute(token) => {
                String::from_str("Invalid attribute: ").concat(token.as_str())
            },
            ExpandError::MissingHandlerKind => String::from_str(
                "must have either 'fetch' or 'scheduled' attribute, e.g. #[event(fetch)]",
            ),
            ExpandError::Syntax(error) => error.to_string(),
            ExpandError::ExportFailed(report) => {
                String::from_str("wasm_bindgen macro failed to expand: ").concat(report.as_str())
            },
        }
    }
}

} // verus!
