//! The failure taxonomy of the tracker, and the one-line rendering that the
//! error sink writes per failure.

use vstd::prelude::*;

verus! {

pub type CliResult<T> = Result<T, CliError>;

/// One per-symbol, per-round failure. Every failure is forwarded to the
/// error sink as exactly one of these; none aborts the scheduler or another
/// symbol's round.
#[derive(Debug, Clone)]
pub enum CliError {
    /// The quote source could not be reached; carries the transport's own
    /// message.
    ProviderError(String),
    /// The provider's response could not be deserialized.
    DeserializationError,
    /// The provider returned zero quotes for the window.
    EmptySeries,
    /// A required computed field was absent, e.g. the series was shorter
    /// than the moving-average window.
    MissingData,
}

/// The human-readable message of each failure.
pub open spec fn message_of(e: CliError) -> Seq<char> {
    match e {
        CliError::ProviderError(m) => m@,
        CliError::DeserializationError => "fetched bad data from yahoo! finance"@,
        CliError::EmptySeries => "empty quote series for the requested window"@,
        CliError::MissingData => "Missing data"@,
    }
}

/// The line the error sink writes: the uniform prefix, then the message.
pub open spec fn spec_error_line(e: CliError) -> Seq<char> {
    "Error: "@ + message_of(e)
}

impl CliError {
    /// The human-readable message of this failure.
    pub fn message(&self) -> (r: String)
        ensures
            r@ == message_of(*self),
    {
        match self {
            CliError::ProviderError(m) => m.clone(),
            CliError::DeserializationError => String::from_str(
                "fetched bad data from yahoo! finance",
            ),
            CliError::EmptySeries => String::from_str("empty quote series for the requested window"),
            CliError::MissingData => String::from_str("Missing data"),
        }
    }
}

/// The diagnostic line for one failure, as the error sink prints it.
pub fn error_line(e: &CliError) -> (r: String)
    ensures
        r@ == spec_error_line(*e),
{
    let mut line = String::from_str("Error: ");
    let msg = e.message();
    line.append(msg.as_str());
    line
}

} // verus!
