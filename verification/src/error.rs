//! The ways in which a parse can fail.

use vstd::prelude::*;

verus! {

/// Why a blob of bytes was refused.
///
/// Every failure ends the parse: nothing is retried, and no partly filled
/// reader is handed out.
#[derive(Clone, Copy, Debug, PartialEq, Eq, Structural)]
pub enum BundleError {
    /// The magic bytes are wrong: this is no ICU data file at all.
    NotDataFile,
    /// The blob has the shape of a data file, but its header names another
    /// character set, another sub-format or a version that cannot be read, or
    /// its two sizes contradict each other.
    HeaderCheckFailed,
    /// The index table says of itself that it is too short to hold the
    /// attributes word.
    NotEnoughIndexes,
    /// The data ended before a field could be read in full.
    UnexpectedEof,
}

impl BundleError {
    /// The text of `message`.
    pub open spec fn spec_message(self) -> Seq<char> {
        match self {
            BundleError::NotDataFile => "ICU data file error: Not an ICU data file"@,
            BundleError::HeaderCheckFailed =>
                "ICU data file error: Header authentication failed, please check if you have a valid ICU data file"@,
            BundleError::NotEnoughIndexes => "not enough indexes"@,
            BundleError::UnexpectedEof => "failed to fill whole buffer"@,
        }
    }

    /// A sentence for the person who handed in the file.
    pub fn message(&self) -> (s: &'static str)
        ensures
            s@ == self.spec_message(),
    {
        match self {
            BundleError::NotDataFile => "ICU data file error: Not an ICU data file",
            BundleError::HeaderCheckFailed =>
                "ICU data file error: Header authentication failed, please check if you have a valid ICU data file",
            BundleError::NotEnoughIndexes => "not enough indexes",
            BundleError::UnexpectedEof => "failed to fill whole buffer",
        }
    }
}

} // verus!
