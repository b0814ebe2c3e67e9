//! Identifiers of widget instances.
//!
//! Each instance gets the next value of a process-wide counter of its kind;
//! its id string is a fixed prefix followed by that value in decimal.
use vstd::prelude::*;
use crate::numfmt::{decimal, decimal_string};

verus! {

/// `prefix` followed by `n` in decimal.
pub fn prefixed_decimal(prefix: &str, n: usize) -> (s: String)
    ensures
        s@ == prefix@ + decimal(n as nat),
{
    let digits = decimal_string(n);
    let s = String::from_str(prefix);
    s.concat(digits.as_str())
}

/// The id of the button created as the `n`-th one without an explicit id.
pub fn generate_auto_id(n: usize) -> (s: String)
    ensures
        s@ == "__button_"@ + decimal(n as nat),
{
    prefixed_decimal("__button_", n)
}

/// Unique identifier for an Autocomplete widget instance.
#[derive(Debug, Clone, Copy, PartialEq, Eq, Hash, Structural)]
pub struct AutocompleteId(usize);

impl AutocompleteId {
    /// The counter value of this instance.
    pub closed spec fn value(&self) -> usize {
        self.0
    }

    /// The identifier of the instance that drew `n` from the counter.
    pub fn new(n: usize) -> (r: Self)
        ensures
            r.value() == n,
    {
        AutocompleteId(n)
    }

    /// The id string: `__autocomplete_` followed by the counter value.
    pub fn to_string(&self) -> (s: String)
        ensures
            s@ == "__autocomplete_"@ + decimal(self.value() as nat),
    {
        prefixed_decimal("__autocomplete_", self.0)
    }
}

/// Unique identifier for a Checkbox widget instance.
#[derive(Debug, Clone, Copy, PartialEq, Eq, Hash, Structural)]
pub struct CheckboxId(usize);

impl CheckboxId {
    /// The counter value of this instance.
    pub closed spec fn value(&self) -> usize {
        self.0
    }

    /// The identifier of the instance that drew `n` from the counter.
    pub fn new(n: usize) -> (r: Self)
        ensures
            r.value() == n,
    {
        CheckboxId(n)
    }

    /// The id string: `__checkbox_` followed by the counter value.
    pub fn to_string(&self) -> (s: String)
        ensures
            s@ == "__checkbox_"@ + decimal(self.value() as nat),
    {
        prefixed_decimal("__checkbox_", self.0)
    }
}

/// Unique identifier for a Collapsible widget instance.
#[derive(Debug, Clone, Copy, PartialEq, Eq, Hash, Structural)]
pub struct CollapsibleId(usize);

impl CollapsibleId {
    /// The counter value of this instance.
    pub closed spec fn value(&self) -> usize {
        self.0
    }

    /// The identifier of the instance that drew `n` from the counter.
    pub fn new(n: usize) -> (r: Self)
        ensures
            r.value() == n,
    {
        CollapsibleId(n)
    }

    /// The id string: `__collapsible_` followed by the counter value.
    pub fn to_string(&self) -> (s: String)
        ensures
            s@ == "__collapsible_"@ + decimal(self.value() as nat),
    {
        prefixed_decimal("__collapsible_", self.0)
    }
}

/// Unique identifier for an Input widget instance.
#[derive(Debug, Clone, Copy, PartialEq, Eq, Hash, Structural)]
pub struct InputId(usize);

impl InputId {
    /// The counter value of this instance.
    pub closed spec fn value(&self) -> usize {
        self.0
    }

    /// The identifier of the instance that drew `n` from the counter.
    pub fn new(n: usize) -> (r: Self)
        ensures
            r.value() == n,
    {
        InputId(n)
    }

    /// The id string: `__input_` followed by the counter value.
    pub fn to_string(&self) -> (s: String)
        ensures
            s@ == "__input_"@ + decimal(self.value() as nat),
    {
        prefixed_decimal("__input_", self.0)
    }
}

/// Unique identifier for a RadioGroup widget instance.
#[derive(Debug, Clone, Copy, PartialEq, Eq, Hash, Structural)]
pub struct RadioGroupId(usize);

impl RadioGroupId {
    /// The counter value of this instance.
    pub closed spec fn value(&self) -> usize {
        self.0
    }

    /// The identifier of the instance that drew `n` from the counter.
    pub fn new(n: usize) -> (r: Self)
        ensures
            r.value() == n,
    {
        RadioGroupId(n)
    }

    /// The id string: `__radio_group_` followed by the counter value.
    pub fn to_string(&self) -> (s: String)
        ensures
            s@ == "__radio_group_"@ + decimal(self.value() as nat),
    {
        prefixed_decimal("__radio_group_", self.0)
    }
}

/// Unique identifier for a Select widget instance.
#[derive(Debug, Clone, Copy, PartialEq, Eq, Hash, Structural)]
pub struct SelectId(usize);

impl SelectId {
    /// The counter value of this instance.
    pub closed spec fn value(&self) -> usize {
        self.0
    }

    /// The identifier of the instance that drew `n` from the counter.
    pub fn new(n: usize) -> (r: Self)
        ensures
            r.value() == n,
    {
        SelectId(n)
    }

    /// The id string: `__select_` followed by the counter value.
    pub fn to_string(&self) -> (s: String)
        ensures
            s@ == "__select_"@ + decimal(self.value() as nat),
    {
        prefixed_decimal("__select_", self.0)
    }
}

/// Unique identifier for a Table widget instance.
#[derive(Debug, Clone, Copy, PartialEq, Eq, Hash, Structural)]
pub struct TableId(usize);

impl TableId {
    /// The counter value of this instance.
    pub closed spec fn value(&self) -> usize {
        self.0
    }

    /// The identifier of the instance that drew `n` from the counter.
    pub fn new(n: usize) -> (r: Self)
        ensures
            r.value() == n,
    {
        TableId(n)
    }

    /// The id string: `__table_` followed by the counter value.
    pub fn to_string(&self) -> (s: String)
        ensures
            s@ == "__table_"@ + decimal(self.value() as nat),
    {
        prefixed_decimal("__table_", self.0)
    }
}

/// Unique identifier for a Tree widget instance.
#[derive(Debug, Clone, Copy, PartialEq, Eq, Hash, Structural)]
pub struct TreeId(usize);

impl TreeId {
    /// The counter value of this instance.
    pub closed spec fn value(&self) -> usize {
        self.0
    }

    /// The identifier of the instance that drew `n` from the counter.
    pub fn new(n: usize) -> (r: Self)
        ensures
            r.value() == n,
    {
        TreeId(n)
    }

    /// The id string: `__tree_` followed by the counter value.
    pub fn to_string(&self) -> (s: String)
        ensures
            s@ == "__tree_"@ + decimal(self.value() as nat),
    {
        prefixed_decimal("__tree_", self.0)
    }
}

} // verus!
