//! Items that can be displayed in an Autocomplete widget.
use vstd::prelude::*;

verus! {

/// Items that can be displayed in an Autocomplete widget: an identifier
/// used to track selection and a label shown and filtered on.
pub trait AutocompleteItem {
    /// The display text of this item.
    spec fn label_view(&self) -> Seq<char>;

    /// Unique identifier for this item.
    fn autocomplete_id(&self) -> String;

    /// Display text for this item.
    fn autocomplete_label(&self) -> (r: String)
        ensures
            r@ == self.label_view(),
    ;
}

impl AutocompleteItem for String {
    open spec fn label_view(&self) -> Seq<char> {
        self@
    }

    /// The string itself.
    fn autocomplete_id(&self) -> (r: String)
        ensures
            r@ == self@,
    {
        self.clone()
    }

    /// The string itself.
    fn autocomplete_label(&self) -> (r: String)
        ensures
            r@ == self@,
    {
        self.clone()
    }
}

impl AutocompleteItem for &str {
    open spec fn label_view(&self) -> Seq<char> {
        self@
    }

    /// The string itself.
    fn autocomplete_id(&self) -> (r: String)
        ensures
            r@ == self@,
    {
        (*self).to_owned()
    }

    /// The string itself.
    fn autocomplete_label(&self) -> (r: String)
        ensures
            r@ == self@,
    {
        (*self).to_owned()
    }
}

impl AutocompleteItem for (String, String) {
    open spec fn label_view(&self) -> Seq<char> {
        self.1@
    }

    /// The first string.
    fn autocomplete_id(&self) -> (r: String)
        ensures
            r@ == self.0@,
    {
        self.0.clone()
    }

    /// The second string.
    fn autocomplete_label(&self) -> (r: String)
        ensures
            r@ == self.1@,
    {
        self.1.clone()
    }
}

} // verus!
