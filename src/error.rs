//! Errors of the connector and the parse failures that decoding reports.

use vstd::prelude::*;

verus! {

/// A position in a text: one-based line and column.
#[derive(Clone, Copy, Debug, PartialEq, Eq, Structural)]
pub struct Position {
    pub line: usize,
    pub col: usize,
}

/// Why a byte buffer does not decode as a resource body.
#[derive(Clone, Debug)]
pub struct ParseError {
    /// What went wrong, naming the field and the expected type where known
    pub message: String,
    /// Where in the text it went wrong, if known
    pub position: Option<Position>,
}

/// Which of the two bodies handed to the planner a failure concerns.
#[derive(Clone, Copy, Debug, PartialEq, Eq, Structural)]
pub enum Side {
    Current,
    Desired,
}

/// The failures of addressing, decoding and planning.
#[derive(Clone, Debug)]
pub enum ConnectorError {
    /// The path does not match any known address shape
    InvalidAddress { path: String },
    /// A body does not decode under the strict schema
    Parse { side: Side, error: ParseError },
    /// The body decoded as another kind of resource than the address names
    TypeMismatch { side: Side },
    /// The address does not support the requested operation
    UnsupportedOperation { path: String, operation: String },
}

} // verus!
