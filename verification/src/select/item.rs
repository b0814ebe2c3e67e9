//! Items that can be displayed in a Select widget.
use vstd::prelude::*;

verus! {

/// Items that can be displayed in a Select widget: an identifier used to
/// track selection and a label shown in the dropdown.
pub trait SelectItem {
    /// Unique identifier for this item.
    fn select_id(&self) -> String;

    /// Display text for this item.
    fn select_label(&self) -> String;
}

impl SelectItem for String {
    /// The string itself.
    fn select_id(&self) -> (r: String)
        ensures
            r@ == self@,
    {
        self.clone()
    }

    /// The string itself.
    fn select_label(&self) -> (r: String)
        ensures
            r@ == self@,
    {
        self.clone()
    }
}

impl SelectItem for &str {
    /// The string itself.
    fn select_id(&self) -> (r: String)
        ensures
            r@ == self@,
    {
        (*self).to_owned()
    }

    /// The string itself.
    fn select_label(&self) -> (r: String)
        ensures
            r@ == self@,
    {
        (*self).to_owned()
    }
}

impl SelectItem for (String, String) {
    /// The first string.
    fn select_id(&self) -> (r: String)
        ensures
            r@ == self.0@,
    {
        self.0.clone()
    }

    /// The second string.
    fn select_label(&self) -> (r: String)
        ensures
            r@ == self.1@,
    {
        self.1.clone()
    }
}

} // verus!
