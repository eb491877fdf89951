//! What the screens know without drawing anything.

use vstd::prelude::*;

verus! {

/// The screen that manages packages.
#[derive(Debug)]
pub struct PackageManagerScreen {
    input_focused: bool,
}

impl PackageManagerScreen {
    /// The screen as it opens: no input field has the focus.
    pub fn new() -> (r: Self)
        ensures
            !r.focused(),
    {
        PackageManagerScreen { input_focused: false }
    }

    /// Whether an input field has the focus.
    pub closed spec fn focused(&self) -> bool {
        self.input_focused
    }

    /// Whether an input field has the focus, so that keys are text.
    pub fn is_input_focused(&self) -> (r: bool)
        ensures
            r == self.focused(),
    {
        self.input_focused
    }
}

impl Default for PackageManagerScreen {
    fn default() -> (r: Self)
        ensures
            !r.focused(),
    {
        PackageManagerScreen::new()
    }
}

} // verus!
