//! The function table of the runtime module.
//!
//! A guest names its dispatch thunk by an index into this table. The table is
//! held as plain values: what each slot refers to, not the engine's objects.

use vstd::prelude::*;

verus! {

/// A function of the supervisor, under the number the engine knows it by.
#[derive(Clone, Copy, Debug, PartialEq, Eq)]
pub struct Func {
    /// The engine's number for the function.
    pub id: u32,
}

/// What one slot of a table holds.
#[derive(Clone, Copy, Debug, PartialEq, Eq)]
pub enum TableElement {
    /// A function reference, which may be null.
    FuncRef(Option<Func>),
    /// A reference to something that is not a function.
    ExternRef,
}

/// A table of references.
#[derive(Clone, Debug, PartialEq, Eq)]
pub struct Table {
    elements: Vec<TableElement>,
}

impl View for Table {
    type V = Seq<TableElement>;

    closed spec fn view(&self) -> Seq<TableElement> {
        self.elements@
    }
}

/// The function that slot `index` of `elements` refers to, if the slot exists
/// and holds a function.
pub open spec fn function_at(elements: Seq<TableElement>, index: u32) -> Option<Func> {
    if index < elements.len() {
        match elements[index as int] {
            TableElement::FuncRef(Some(func)) => Some(func),
            _ => None,
        }
    } else {
        None
    }
}

impl Table {
    /// A table with these elements.
    pub fn new(elements: Vec<TableElement>) -> (table: Table)
        ensures
            table@ == elements@,
    {
        Table { elements }
    }

    /// The number of slots.
    pub fn size(&self) -> (len: usize)
        ensures
            len == self@.len(),
    {
        self.elements.len()
    }

    /// The element in slot `index`, or `None` past the end of the table.
    pub fn get(&self, index: u32) -> (element: Option<TableElement>)
        ensures
            element == if index < self@.len() {
                Some(self@[index as int])
            } else {
                None
            },
    {
        if (index as usize) < self.elements.len() {
            Some(self.elements[index as usize])
        } else {
            None
        }
    }
}

} // verus!
