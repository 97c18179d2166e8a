//! Backends that display dialog boxes.
//!
//! A backend is an external program that renders dialog boxes.  Only one is
//! supported: the `dialog` tool, driven by [`Dialog`].  [`from_str`] looks a
//! backend up by name, case-insensitively.

use vstd::prelude::*;

pub mod dialog;

pub use crate::backends::dialog::Dialog;

use crate::sys::{lower_of, lowercase};

verus! {

/// Looks a backend up by name, case-insensitively: `"dialog"` in any casing
/// names the [`Dialog`] backend, and no other name is recognized.
pub fn from_str(s: &str) -> (r: Option<Dialog>)
    ensures
        r is Some <==> lower_of(s@) == "dialog"@,
        r matches Some(d) ==> d.is_default(),
{
    let lower = lowercase(s);
    let name = "dialog".to_owned();
    if lower == name {
        Some(Dialog::new())
    } else {
        None
    }
}

} // verus!
