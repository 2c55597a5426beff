//! The records that the builders assemble.

use vstd::prelude::*;

verus! {

/// The primitive type of a parameter or of a result.
#[derive(Clone, Copy, Debug, PartialEq, Eq, Structural)]
pub enum ValueType {
    I32,
    I64,
    F32,
    F64,
}

/// What a function type holds: its parameters in order, and its result if it
/// has one.
pub struct FunctionTypeView {
    pub params: Seq<ValueType>,
    pub return_type: Option<ValueType>,
}

/// The type of a function, written out in full.
#[derive(Debug, PartialEq, Eq)]
pub struct FunctionType {
    params: Vec<ValueType>,
    return_type: Option<ValueType>,
}

impl View for FunctionType {
    type V = FunctionTypeView;

    closed spec fn view(&self) -> FunctionTypeView {
        FunctionTypeView { params: self.params@, return_type: self.return_type }
    }
}

impl Default for FunctionType {
    /// No parameters and no result.
    fn default() -> (r: Self)
        ensures
            r@.params == Seq::<ValueType>::empty(),
            r@.return_type == None::<ValueType>,
    {
        FunctionType { params: Vec::new(), return_type: None }
    }
}

impl FunctionType {
    /// The parameters, in order.
    pub fn params(&self) -> (r: &[ValueType])
        ensures
            r@ == self@.params,
    {
        self.params.as_slice()
    }

    /// The parameters, open to change: what the caller leaves behind the
    /// reference becomes the parameter list, and the result stays as it was.
    pub fn params_mut(&mut self) -> (r: &mut Vec<ValueType>)
        ensures
            r@ == old(self)@.params,
            final(self)@.params == final(r)@,
            final(self)@.return_type == old(self)@.return_type,
    {
        &mut self.params
    }

    /// The result, if the function has one.
    pub fn return_type(&self) -> (r: Option<ValueType>)
        ensures
            r == self@.return_type,
    {
        self.return_type
    }

    /// The result, open to change: what the caller leaves behind the
    /// reference becomes the result, and the parameters stay as they were.
    pub fn return_type_mut(&mut self) -> (r: &mut Option<ValueType>)
        ensures
            *r == old(self)@.return_type,
            final(self)@.return_type == *final(r),
            final(self)@.params == old(self)@.params,
    {
        &mut self.return_type
    }
}

/// One entry of the functions section: the index of the function's type,
/// which is also the entry's view.
#[derive(Clone, Copy, Debug, PartialEq, Eq, Structural)]
pub struct Func {
    type_ref: u32,
}

impl View for Func {
    type V = u32;

    closed spec fn view(&self) -> u32 {
        self.type_ref
    }
}

impl Func {
    /// An entry that refers to the type at `type_ref`.
    pub fn new(type_ref: u32) -> (r: Self)
        ensures
            r@ == type_ref,
    {
        Func { type_ref }
    }

    /// The index of the function's type.
    pub fn type_ref(&self) -> (r: u32)
        ensures
            r == self@,
    {
        self.type_ref
    }
}

/// The type indices of a run of entries, in order.
pub open spec fn type_indices(entries: Seq<Func>) -> Seq<u32> {
    entries.map_values(|f: Func| f@)
}

/// The functions section: one entry per declared function, in declaration
/// order. Its view is the sequence of the entries' type indices.
#[derive(Debug, PartialEq, Eq)]
pub struct FunctionsSection {
    entries: Vec<Func>,
}

impl View for FunctionsSection {
    type V = Seq<u32>;

    closed spec fn view(&self) -> Seq<u32> {
        type_indices(self.entries@)
    }
}

impl FunctionsSection {
    /// A section without entries.
    pub fn new() -> (r: Self)
        ensures
            r@ == Seq::<u32>::empty(),
    {
        FunctionsSection { entries: Vec::new() }
    }

    /// The entries, in declaration order.
    pub fn entries(&self) -> (r: &[Func])
        ensures
            type_indices(r@) == self@,
    {
        self.entries.as_slice()
    }

    /// The entries, open to change: what the caller leaves behind the
    /// reference becomes the section's entries.
    pub fn entries_mut(&mut self) -> (r: &mut Vec<Func>)
        ensures
            type_indices(r@) == old(self)@,
            final(self)@ == type_indices(final(r)@),
    {
        &mut self.entries
    }
}

} // verus!
