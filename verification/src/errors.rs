use vstd::prelude::*;

verus! {

/// A terminal failure of the extraction operation.
///
/// `IoFailure` covers everything the surrounding system refused: the scratch
/// root could not be provisioned, or an entry's bytes could not be read.
/// `CorruptArchive` means the container's structural metadata (its central
/// directory) could not be parsed. Each variant carries a descriptive
/// message for the caller.
#[derive(Debug)]
pub enum ExtractError {
    IoFailure(String),
    CorruptArchive(String),
}

impl ExtractError {
    /// The message carried by the error, whichever variant it is.
    pub open spec fn text(self) -> Seq<char> {
        match self {
            ExtractError::IoFailure(m) => m@,
            ExtractError::CorruptArchive(m) => m@,
        }
    }

    /// The descriptive message, as a string the caller can surface.
    pub fn message(&self) -> (r: String)
        ensures
            r@ == self.text(),
    {
        match self {
            ExtractError::IoFailure(m) => m.clone(),
            ExtractError::CorruptArchive(m) => m.clone(),
        }
    }
}

} // verus!
