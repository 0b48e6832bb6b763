use vstd::prelude::*;

verus! {

/// The command line of one run: the file to process and the two switches.
#[derive(Debug, Clone, PartialEq, Eq)]
pub struct Args {
    /// The file (not directory) to process.
    pub file: String,
    /// Only report whether the file ends with a line feed, without changing it.
    pub check: bool,
    /// Word the reports in the stylized voice.
    pub otaku: bool,
}

} // verus!
