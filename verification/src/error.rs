//! The error values a window or menu operation can return.

use vstd::prelude::*;

verus! {

/// Why a window or menu call failed.
///
/// Every failure is reported as an explicit result value by the call that
/// detected it; the carried string describes the failure to a human reader.
#[derive(Debug, Clone, PartialEq)]
pub enum Error {
    /// The window could not be created, either because the native surface was
    /// refused or because the creation options contradict each other.
    WindowCreate(String),
    /// An `update` call could not present: the supplied buffer is smaller than
    /// the dimensions it claims, or the dimensions themselves are unusable.
    UpdateFailed(String),
    /// The menu backend rejected a menu creation.
    MenuCreate(String),
    /// The menu backend rejected a menu item creation.
    MenuItemCreate(String),
}

impl Error {
    /// The carried description, independent of the variant.
    pub fn message(&self) -> (r: String)
        ensures
            r@ == self.spec_message(),
    {
        match self {
            Error::WindowCreate(s) => s.clone(),
            Error::UpdateFailed(s) => s.clone(),
            Error::MenuCreate(s) => s.clone(),
            Error::MenuItemCreate(s) => s.clone(),
        }
    }

    /// The description carried by whichever variant `self` is.
    pub open spec fn spec_message(&self) -> Seq<char> {
        match self {
            Error::WindowCreate(s) => s@,
            Error::UpdateFailed(s) => s@,
            Error::MenuCreate(s) => s@,
            Error::MenuItemCreate(s) => s@,
        }
    }
}

} // verus!
