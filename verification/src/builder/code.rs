//! Builders for a module's function declarations.

use super::invoke::{Identity, Invoke};
use crate::elements::{Func, FunctionType, FunctionsSection, ValueType};
use vstd::prelude::*;

verus! {

/// How a function declares its type: by the index of a type declared
/// elsewhere, or written out in full.
pub enum Signature {
    TypeReference(u32),
    Inline(FunctionType),
}

/// The signatures of an accumulator, in declaration order.
pub type SignatureBindings = Vec<Signature>;

/// The indices that a sequence of type references holds, in order.
pub open spec fn type_refs(signatures: Seq<Signature>) -> Seq<u32> {
    Seq::new(signatures.len(), |i: int| signatures[i]->TypeReference_0)
}

/// Whether every signature of the sequence is a type reference.
pub open spec fn only_type_refs(signatures: Seq<Signature>) -> bool {
    forall|i: int| 0 <= i < signatures.len() ==> signatures[i] is TypeReference
}

/// Builds an inline signature: parameters in call order and at most one
/// result.
pub struct SignatureBuilder<F = Identity> {
    callback: F,
    signature: FunctionType,
}

impl<F> SignatureBuilder<F> where F: Invoke<FunctionType> {
    /// The continuation that `build` will invoke.
    pub closed spec fn continuation(self) -> F {
        self.callback
    }

    /// The function type as built so far.
    pub closed spec fn pending(self) -> FunctionType {
        self.signature
    }

    /// Whether `result` is an outcome of `build` on this builder: what the
    /// continuation yields for the function type built so far.
    pub open spec fn builds(self, result: F::Result) -> bool {
        self.continuation().yields(self.pending(), result)
    }

    /// A builder without parameters or result that will hand its function
    /// type to `callback`.
    pub fn with_callback(callback: F) -> (r: Self)
        ensures
            r.continuation() == callback,
            r.pending()@.params == Seq::<ValueType>::empty(),
            r.pending()@.return_type == None::<ValueType>,
    {
        SignatureBuilder { callback: callback, signature: FunctionType::default() }
    }

    /// Appends a parameter.
    pub fn param(self, value_type: ValueType) -> (r: Self)
        ensures
            r.continuation() == self.continuation(),
            r.pending()@.params == self.pending()@.params.push(value_type),
            r.pending()@.return_type == self.pending()@.return_type,
    {
        let mut next = self;
        next.signature.params_mut().push(value_type);
        next
    }

    /// Sets the result, replacing an earlier one.
    pub fn return_type(self, value_type: ValueType) -> (r: Self)
        ensures
            r.continuation() == self.continuation(),
            r.pending()@.params == self.pending()@.params,
            r.pending()@.return_type == Some(value_type),
    {
        let mut next = self;
        *next.signature.return_type_mut() = Some(value_type);
        next
    }

    /// Hands the finished function type to the continuation and returns what
    /// the continuation yields.
    pub fn build(self) -> (r: F::Result)
        ensures
            self.builds(r),
    {
        self.callback.invoke(self.signature)
    }
}

/// Builds a reference to a declared type: a single index.
pub struct TypeRefBuilder<F = Identity> {
    callback: F,
    type_ref: u32,
}

impl<F> TypeRefBuilder<F> where F: Invoke<u32> {
    /// The continuation that `build` will invoke.
    pub closed spec fn continuation(self) -> F {
        self.callback
    }

    /// The index as set so far.
    pub closed spec fn index(self) -> u32 {
        self.type_ref
    }

    /// Whether `result` is an outcome of `build` on this builder: what the
    /// continuation yields for the index set so far.
    pub open spec fn builds(self, result: F::Result) -> bool {
        self.continuation().yields(self.index(), result)
    }

    /// A builder with index 0 that will hand its index to `callback`.
    pub fn with_callback(callback: F) -> (r: Self)
        ensures
            r.continuation() == callback,
            r.index() == 0,
    {
        TypeRefBuilder { callback: callback, type_ref: 0 }
    }

    /// Sets the index, replacing an earlier one.
    pub fn val(self, val: u32) -> (r: Self)
        ensures
            r.continuation() == self.continuation(),
            r.index() == val,
    {
        let mut next = self;
        next.type_ref = val;
        next
    }

    /// Hands the index to the continuation and returns what the continuation
    /// yields.
    pub fn build(self) -> (r: F::Result)
        ensures
            self.builds(r),
    {
        self.callback.invoke(self.type_ref)
    }
}

/// Collects the signatures of a module's functions, in declaration order.
///
/// Its view is the sequence of the signatures appended so far.
pub struct FunctionsBuilder<F = Identity> {
    callback: F,
    section: Vec<Signature>,
}

impl<F> View for FunctionsBuilder<F> {
    type V = Seq<Signature>;

    open spec fn view(&self) -> Seq<Signature> {
        self.bindings()@
    }
}

impl FunctionsBuilder {
    /// An empty accumulator that returns what it has built.
    pub fn new() -> (r: Self)
        ensures
            r@ == Seq::<Signature>::empty(),
    {
        FunctionsBuilder::with_callback(Identity)
    }
}

impl<F> FunctionsBuilder<F> {
    /// The continuation that `build` or `bind` will invoke.
    pub closed spec fn continuation(self) -> F {
        self.callback
    }

    /// The signatures collected so far, as `bind` hands them on.
    pub closed spec fn bindings(self) -> SignatureBindings {
        self.section
    }

    /// Whether `next` is this accumulator with `signature` appended.
    pub open spec fn appended(self, signature: Signature, next: Self) -> bool {
        &&& next.continuation() == self.continuation()
        &&& next@ == self@.push(signature)
    }

    /// An empty accumulator that will hand what it has built to `callback`.
    pub fn with_callback(callback: F) -> (r: Self)
        ensures
            r.continuation() == callback,
            r@ == Seq::<Signature>::empty(),
    {
        FunctionsBuilder { callback: callback, section: Vec::new() }
    }

    /// Appends a signature.
    pub fn with_signature(self, signature: Signature) -> (r: Self)
        ensures
            r.continuation() == self.continuation(),
            r@ == self@.push(signature),
    {
        let mut next = self;
        next.section.push(signature);
        next
    }

    /// Starts a type reference that, once built, is appended to this
    /// accumulator.
    pub fn type_ref(self) -> (r: TypeRefBuilder<Self>)
        ensures
            r.continuation() == self,
            r.index() == 0,
    {
        TypeRefBuilder::with_callback(self)
    }
}

impl<F> Invoke<FunctionType> for FunctionsBuilder<F> {
    type Result = Self;

    /// The accumulator with `signature` appended as an inline signature.
    open spec fn yields(self, signature: FunctionType, result: Self) -> bool {
        self.appended(Signature::Inline(signature), result)
    }

    fn invoke(self, signature: FunctionType) -> (result: Self)
        ensures
            result.continuation() == self.continuation(),
            result@ == self@.push(Signature::Inline(signature)),
    {
        self.with_signature(Signature::Inline(signature))
    }
}

impl<F> Invoke<u32> for FunctionsBuilder<F> {
    type Result = Self;

    /// The accumulator with `type_ref` appended as a type reference.
    open spec fn yields(self, type_ref: u32, result: Self) -> bool {
        self.appended(Signature::TypeReference(type_ref), result)
    }

    fn invoke(self, type_ref: u32) -> (result: Self)
        ensures
            result.continuation() == self.continuation(),
            result@ == self@.push(Signature::TypeReference(type_ref)),
    {
        self.with_signature(Signature::TypeReference(type_ref))
    }
}

impl<F> FunctionsBuilder<F> where F: Invoke<FunctionsSection> {
    /// Whether `result` is an outcome of `build` on this accumulator: what
    /// the continuation yields for the section that holds this accumulator's
    /// type indices.
    pub open spec fn builds(self, result: F::Result) -> bool {
        exists|section: FunctionsSection|
            section@ == type_refs(self@) && #[trigger] self.continuation().yields(section, result)
    }

    /// Turns the type references into the functions section, one entry per
    /// reference in declaration order, hands the section to the continuation
    /// and returns what the continuation yields.
    ///
    /// The section has no place for an inline signature, so every signature
    /// collected must be a type reference.
    pub fn build(self) -> (r: F::Result)
        requires
            only_type_refs(self@),
        ensures
            self.builds(r),
    {
        let mut result = FunctionsSection::new();
        let mut i: usize = 0;
        while i < self.section.len()
            invariant
                i <= self.section.len(),
                only_type_refs(self.section@),
                result@ == type_refs(self.section@).take(i as int),
            decreases self.section.len() - i,
        {
            let ghost before = result@;
            match &self.section[i] {
                Signature::TypeReference(type_ref) => {
                    result.entries_mut().push(Func::new(*type_ref));
                    assert(result@ =~= before.push(*type_ref));
                },
                Signature::Inline(_) => {
                    vstd::pervasive::unreached()
                },
            }
            i += 1;
        }
        assert(result@ =~= type_refs(self@));
        let r = self.callback.invoke(result);
        assert(self.continuation().yields(result, r));
        r
    }
}

impl<F> FunctionsBuilder<F> where F: Invoke<SignatureBindings> {
    /// Whether `result` is an outcome of `bind` on this accumulator: what
    /// the continuation yields for the signatures collected so far.
    pub open spec fn binds(self, result: F::Result) -> bool {
        self.continuation().yields(self.bindings(), result)
    }

    /// Starts an inline signature that, once built, is appended to this
    /// accumulator.
    pub fn signature(self) -> (r: SignatureBuilder<Self>)
        ensures
            r.continuation() == self,
            r.pending()@.params == Seq::<ValueType>::empty(),
            r.pending()@.return_type == None::<ValueType>,
    {
        SignatureBuilder::with_callback(self)
    }

    /// Hands the signatures, in declaration order, to the continuation and
    /// returns what the continuation yields.
    pub fn bind(self) -> (r: F::Result)
        ensures
            self.binds(r),
    {
        self.callback.invoke(self.section)
    }
}

/// An empty accumulator that returns what it has built.
pub fn function() -> (r: FunctionsBuilder)
    ensures
        r@ == Seq::<Signature>::empty(),
{
    FunctionsBuilder::new()
}

} // verus!
