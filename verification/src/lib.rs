//! A purchase-order report library: parses an operator-supplied list of style
//! tokens, filters order rows whose combined style+color key contains a token
//! as a substring, and renders the matching rows as a five-column CSV report.

use vstd::prelude::*;

pub mod substr;
pub mod tokens;
pub mod records;
pub mod matcher;
pub mod report;
pub mod pipeline;
pub mod laws;

verus! {

/// The least number of fields an order row must carry: the report projection
/// reads columns 0 through 8.
pub const MIN_COLUMNS: usize = 9;

/// What can go wrong inside the pipeline. File handling belongs to the caller,
/// so only the two in-memory failures appear here.
#[derive(Debug, Clone, PartialEq, Eq)]
pub enum RunError {
    /// The CSV input was malformed; carries the parser's description.
    ParseError(String),
    /// The row at this index has fewer than `MIN_COLUMNS` fields.
    FieldIndexError(usize),
}

impl RunError {
    /// A human-readable description of the failure.
    pub fn message(&self) -> (r: String)
        ensures
            (*self) matches RunError::ParseError(m) ==> r@ == "malformed CSV input: "@ + m@,
            (*self) matches RunError::FieldIndexError(_) ==> r@
                == "an input row has fewer fields than the report projection needs"@,
    {
        match self {
            RunError::ParseError(m) => String::from_str("malformed CSV input: ").concat(
                m.as_str(),
            ),
            RunError::FieldIndexError(_) => String::from_str(
                "an input row has fewer fields than the report projection needs",
            ),
        }
    }
}

} // verus!
