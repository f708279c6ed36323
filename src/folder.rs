//! The result of opening a path with the system's default handler.

use vstd::prelude::*;

verus! {

/// The start of the diagnostic when a path could not be opened.
pub const OPEN_FAILURE: &'static str = "Failed to open folder: ";

/// Success where the path was opened; otherwise a diagnostic that names
/// the path.
pub fn open_path_outcome(path: &str, opened: bool) -> (r: Result<(), String>)
    ensures
        opened ==> r is Ok,
        !opened ==> (r matches Err(e) && e@ == OPEN_FAILURE@ + path@),
{
    if opened {
        Ok(())
    } else {
        Err(String::from_str(OPEN_FAILURE).concat(path))
    }
}

} // verus!
