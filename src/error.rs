use vstd::prelude::*;
use crate::code::CodeError;

verus! {

/// The section of a scout file that a decoding step was reading.
#[derive(Clone, Copy, Debug, PartialEq, Eq, Structural)]
pub enum Section {
    Metadata,
    Match,
    Teams,
    Sets,
    Players,
    Scout,
    /// A section passed over without being decoded.
    Skipped,
}

#[derive(Clone, Copy, Debug, PartialEq, Eq, Structural)]
pub enum ErrorKind {
    /// The section header is absent or is not the expected one.
    Header,
    /// The data line has no field at this position.
    MissingField(usize),
    /// A field's text is not a value of its type.
    Conversion,
    /// The text ended while the section still expected a line.
    Truncated,
    /// An action code could not be decoded.
    Code(CodeError),
}

/// Why a scout file could not be decoded, with the line in question (empty at the end of
/// the text, or the marker sought when skipping).
#[derive(Debug)]
pub struct DecodeError {
    pub kind: ErrorKind,
    pub section: Section,
    pub line: String,
}

pub struct Failure {
    pub kind: ErrorKind,
    pub section: Section,
    pub line: Seq<char>,
}

impl View for DecodeError {
    type V = Failure;

    open spec fn view(&self) -> Failure {
        Failure { kind: self.kind, section: self.section, line: self.line@ }
    }
}

pub open spec fn failure(kind: ErrorKind, section: Section, line: Seq<char>) -> Failure {
    Failure { kind, section, line }
}

impl DecodeError {
    pub fn new(kind: ErrorKind, section: Section, line: String) -> (r: DecodeError)
        ensures
            r@ == failure(kind, section, line@),
    {
        DecodeError { kind, section, line }
    }
}

} // verus!
