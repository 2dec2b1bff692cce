//! Clipboard access of the library: not available yet, every operation
//! reports so.
use vstd::prelude::*;

use crate::error::{Error, Result};

verus! {

/// The clipboard manager.
#[derive(Debug)]
pub struct ClipboardManager {}

impl Default for ClipboardManager {
    fn default() -> (r: ClipboardManager) {
        ClipboardManager {}
    }
}

impl ClipboardManager {
    /// A clipboard manager.
    pub fn new() -> (r: Result<ClipboardManager>)
        ensures
            r is Ok,
    {
        Ok(ClipboardManager {})
    }
}

/// The error every clipboard operation reports.
pub open spec fn not_implemented(r: Result<()>) -> bool {
    r matches Err(Error::Clipboard(m)) && m@ == "Not implemented"@
}

/// Copies text to the clipboard: not available, reports an error.
pub fn copy_to_clipboard(text: &str) -> (r: Result<()>)
    ensures
        not_implemented(r),
{
    proof {
        reveal_strlit("Not implemented");
    }
    Err(Error::Clipboard(String::from_str("Not implemented")))
}

/// Clears the clipboard: not available, reports an error.
pub fn clear_clipboard() -> (r: Result<()>)
    ensures
        not_implemented(r),
{
    proof {
        reveal_strlit("Not implemented");
    }
    Err(Error::Clipboard(String::from_str("Not implemented")))
}

} // verus!
