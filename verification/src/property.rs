//! Property records: named, independently gettable/settable logical fields
//! on instances of a class, resolved dynamically in insertion order.

use vstd::prelude::*;

verus! {

/// Abstraction of a [`Property`].
pub struct PropAbs {
    pub name: Seq<char>,
    pub getter: Option<usize>,
    pub setter: Option<usize>,
}

/// A property descriptor: a name plus optional getter and setter callables.
///
/// The callables are function identifiers into the owning state's function
/// arena. A property with no getter is write-only; one with no setter is
/// read-only. A record is owned by exactly one property table and is
/// immutable once inserted.
#[derive(Debug)]
pub struct Property {
    pub name: String,
    pub getter: Option<usize>,
    pub setter: Option<usize>,
}

impl View for Property {
    type V = PropAbs;

    open spec fn view(&self) -> PropAbs {
        PropAbs { name: self.name@, getter: self.getter, setter: self.setter }
    }
}

impl Property {
    /// Builds a property record from its parts.
    pub fn new(name: String, getter: Option<usize>, setter: Option<usize>) -> (p: Property)
        ensures
            p@ == (PropAbs { name: name@, getter, setter }),
    {
        Property { name, getter, setter }
    }
}

} // verus!
