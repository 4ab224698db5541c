use vstd::prelude::*;

verus! {

/// The kind of values a column holds.
#[derive(Clone, Copy, Debug, PartialEq, Eq, Hash, Structural)]
pub enum KeyType {
    Numeric,
    String,
    Object,
}

impl KeyType {
    pub fn is_numeric(&self) -> (r: bool)
        ensures
            r == (*self == KeyType::Numeric),
    {
        matches!(self, KeyType::Numeric)
    }

    pub fn is_string(&self) -> (r: bool)
        ensures
            r == (*self == KeyType::String),
    {
        matches!(self, KeyType::String)
    }

    pub fn is_object(&self) -> (r: bool)
        ensures
            r == (*self == KeyType::Object),
    {
        matches!(self, KeyType::Object)
    }
}

/// A column identifier of a dataset: a stable display name and the kind of its values.
/// Datasets implement it on a closed enum of their columns.
pub trait SerieKey: Sized {
    /// The name used to label the column and to order keys.
    fn get_display_name(&self) -> String;

    /// Whether the column holds numbers.
    fn is_numeric(&self) -> bool;

    /// Whether the column holds strings.
    fn is_string(&self) -> bool;

    /// Whether the column holds other values.
    fn is_object(&self) -> bool;
}

} // verus!
