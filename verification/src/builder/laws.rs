//! What holds of every chain of builder calls.
//!
//! A chain of fluent calls is described by the sequence of builder states it
//! passes through: the builder it starts from, then the result of each call.

use super::code::{
    only_type_refs, type_refs, FunctionsBuilder, Signature, SignatureBindings, SignatureBuilder,
    TypeRefBuilder,
};
use super::invoke::{Identity, Invoke};
use crate::elements::{FunctionType, FunctionsSection, ValueType};
use vstd::prelude::*;

verus! {

/// The terminal continuation yields the value it was given and no other.
pub proof fn law_identity_yields_its_argument<A>(arg: A, result: A)
    ensures
        Identity.yields(arg, result) <==> result == arg,
{
}

/// A type reference built with the terminal continuation is the index that
/// was set.
pub proof fn law_type_ref_build_returns_index(builder: TypeRefBuilder<Identity>, result: u32)
    requires
        builder.builds(result),
    ensures
        result == builder.index(),
{
}

/// An inline signature built with the terminal continuation is the function
/// type that was assembled.
pub proof fn law_signature_build_returns_function_type(
    builder: SignatureBuilder<Identity>,
    result: FunctionType,
)
    requires
        builder.builds(result),
    ensures
        result == builder.pending(),
{
}

/// An accumulator built with the terminal continuation is the section of
/// its type indices.
pub proof fn law_functions_build_returns_section(
    builder: FunctionsBuilder<Identity>,
    result: FunctionsSection,
)
    requires
        builder.builds(result),
    ensures
        result@ == type_refs(builder@),
{
}

/// An accumulator bound with the terminal continuation is the signatures
/// that were collected.
pub proof fn law_functions_bind_returns_signatures(
    builder: FunctionsBuilder<Identity>,
    result: SignatureBindings,
)
    requires
        builder.binds(result),
    ensures
        result == builder.bindings(),
        result@ == builder@,
{
}

/// Whether `states` is the history of an accumulator to which `signatures`
/// were appended one by one: each state is its predecessor with the next
/// signature appended.
pub open spec fn appended_in_turn<F>(
    states: Seq<FunctionsBuilder<F>>,
    signatures: Seq<Signature>,
) -> bool {
    &&& states.len() == signatures.len() + 1
    &&& forall|k: int|
        0 <= k < signatures.len() ==> (#[trigger] states[k]).appended(
            signatures[k],
            states[k + 1],
        )
}

/// Appending keeps what was there, adds the new signatures behind it in call
/// order, and keeps the continuation.
pub proof fn law_appended_in_call_order<F>(
    states: Seq<FunctionsBuilder<F>>,
    signatures: Seq<Signature>,
)
    requires
        appended_in_turn(states, signatures),
    ensures
        states.last()@ == states[0]@ + signatures,
        states.last().continuation() == states[0].continuation(),
    decreases signatures.len(),
{
    if signatures.len() == 0 {
        assert(states.last()@ =~= states[0]@ + signatures);
    } else {
        let n = signatures.len() - 1;
        law_appended_in_call_order(states.drop_last(), signatures.drop_last());
        assert(states[n].appended(signatures[n], states[n + 1]));
        assert(states.last()@ =~= states[0]@ + signatures);
    }
}

/// `bind` on an accumulator that started empty hands its continuation
/// exactly the signatures that were appended, in call order.
pub proof fn law_bind_hands_on_what_was_appended<F: Invoke<SignatureBindings>>(
    states: Seq<FunctionsBuilder<F>>,
    signatures: Seq<Signature>,
    result: F::Result,
)
    requires
        appended_in_turn(states, signatures),
        states[0]@ == Seq::<Signature>::empty(),
        states.last().binds(result),
    ensures
        exists|bindings: SignatureBindings|
            bindings@ == signatures && #[trigger] states[0].continuation().yields(bindings, result),
{
    law_appended_in_call_order(states, signatures);
    let bindings = states.last().bindings();
    assert(bindings@ =~= signatures);
    assert(states[0].continuation().yields(bindings, result));
}

/// `bind` on an accumulator that started empty and returns what it has
/// built returns as many signatures as were appended, equal in order to
/// what was appended.
pub proof fn law_bind_returns_what_was_appended(
    states: Seq<FunctionsBuilder<Identity>>,
    signatures: Seq<Signature>,
    result: SignatureBindings,
)
    requires
        appended_in_turn(states, signatures),
        states[0]@ == Seq::<Signature>::empty(),
        states.last().binds(result),
    ensures
        result@.len() == signatures.len(),
        result@ == signatures,
{
    law_bind_hands_on_what_was_appended(states, signatures, result);
}

/// Whether `after` is an outcome of `before.type_ref().val(index).build()`:
/// of `build` on a type reference that continues into `before` and holds
/// `index`.
pub open spec fn refers_to<F>(
    before: FunctionsBuilder<F>,
    index: u32,
    after: FunctionsBuilder<F>,
) -> bool {
    exists|child: TypeRefBuilder<FunctionsBuilder<F>>|
        child.continuation() == before && child.index() == index && #[trigger] child.builds(after)
}

/// Whether `states` is the history of an accumulator on which
/// `type_ref().val(i).build()` was called for each `i` of `indices` in turn.
pub open spec fn referred_in_turn<F>(
    states: Seq<FunctionsBuilder<F>>,
    indices: Seq<u32>,
) -> bool {
    &&& states.len() == indices.len() + 1
    &&& forall|k: int|
        0 <= k < indices.len() ==> refers_to(#[trigger] states[k], indices[k], states[k + 1])
}

/// After `type_ref().val(i).build()` for each `i` of `indices` on an
/// accumulator that started empty, the accumulator holds type references
/// only, so `build` may be called, and their indices are `indices` in call
/// order.
pub proof fn law_type_refs_in_call_order<F>(
    states: Seq<FunctionsBuilder<F>>,
    indices: Seq<u32>,
)
    requires
        referred_in_turn(states, indices),
        states[0]@ == Seq::<Signature>::empty(),
    ensures
        only_type_refs(states.last()@),
        type_refs(states.last()@) == indices,
        states.last().continuation() == states[0].continuation(),
{
    let signatures = indices.map_values(|i: u32| Signature::TypeReference(i));
    assert(appended_in_turn(states, signatures)) by {
        assert forall|k: int| 0 <= k < signatures.len() implies (#[trigger] states[k]).appended(
            signatures[k],
            states[k + 1],
        ) by {
            assert(refers_to(states[k], indices[k], states[k + 1]));
        }
    }
    law_appended_in_call_order(states, signatures);
    assert(states.last()@ =~= signatures);
    assert(type_refs(states.last()@) =~= indices);
}

/// `build` after `type_ref().val(i).build()` for each `i` of `indices` on an
/// accumulator that started empty hands its continuation the section whose
/// type indices are `indices`, in call order.
pub proof fn law_build_hands_on_indices_in_call_order<F: Invoke<FunctionsSection>>(
    states: Seq<FunctionsBuilder<F>>,
    indices: Seq<u32>,
    result: F::Result,
)
    requires
        referred_in_turn(states, indices),
        states[0]@ == Seq::<Signature>::empty(),
        states.last().builds(result),
    ensures
        exists|section: FunctionsSection|
            section@ == indices && #[trigger] states[0].continuation().yields(section, result),
{
    law_type_refs_in_call_order(states, indices);
    let section = choose|section: FunctionsSection|
        section@ == type_refs(states.last()@) && #[trigger] states.last().continuation().yields(
            section,
            result,
        );
    assert(states[0].continuation().yields(section, result));
}

/// `n` calls of `type_ref().val(i).build()` on a fresh accumulator, followed
/// by `build`: the section has exactly `n` entries, and their indices are
/// the `i` in call order.
pub proof fn law_build_returns_indices_in_call_order(
    states: Seq<FunctionsBuilder<Identity>>,
    indices: Seq<u32>,
    section: FunctionsSection,
)
    requires
        referred_in_turn(states, indices),
        states[0]@ == Seq::<Signature>::empty(),
        states.last().builds(section),
    ensures
        section@.len() == indices.len(),
        section@ == indices,
{
    law_build_hands_on_indices_in_call_order(states, indices, section);
}

/// One fluent call on an inline-signature builder.
pub enum SignatureStep {
    /// `param` with this type.
    Param(ValueType),
    /// `return_type` with this type.
    ReturnType(ValueType),
}

/// Whether `after` is what the call `step` returns on `before`.
pub open spec fn steps_to<F: Invoke<FunctionType>>(
    before: SignatureBuilder<F>,
    step: SignatureStep,
    after: SignatureBuilder<F>,
) -> bool {
    &&& after.continuation() == before.continuation()
    &&& match step {
        SignatureStep::Param(value_type) => {
            &&& after.pending()@.params == before.pending()@.params.push(value_type)
            &&& after.pending()@.return_type == before.pending()@.return_type
        },
        SignatureStep::ReturnType(value_type) => {
            &&& after.pending()@.params == before.pending()@.params
            &&& after.pending()@.return_type == Some(value_type)
        },
    }
}

/// Whether `states` is the history of a builder on which the calls `steps`
/// were made in turn.
pub open spec fn stepped_in_turn<F: Invoke<FunctionType>>(
    states: Seq<SignatureBuilder<F>>,
    steps: Seq<SignatureStep>,
) -> bool {
    &&& states.len() == steps.len() + 1
    &&& forall|k: int|
        0 <= k < steps.len() ==> steps_to(#[trigger] states[k], steps[k], states[k + 1])
}

/// The types that the `param` calls among `steps` were given, in call order.
pub open spec fn params_of(steps: Seq<SignatureStep>) -> Seq<ValueType>
    decreases steps.len(),
{
    if steps.len() == 0 {
        Seq::empty()
    } else {
        match steps.last() {
            SignatureStep::Param(value_type) => params_of(steps.drop_last()).push(value_type),
            SignatureStep::ReturnType(_) => params_of(steps.drop_last()),
        }
    }
}

/// The type that the last `return_type` call among `steps` was given, if
/// there is such a call.
pub open spec fn return_type_of(steps: Seq<SignatureStep>) -> Option<ValueType>
    decreases steps.len(),
{
    if steps.len() == 0 {
        None
    } else {
        match steps.last() {
            SignatureStep::Param(_) => return_type_of(steps.drop_last()),
            SignatureStep::ReturnType(value_type) => Some(value_type),
        }
    }
}

/// However `param` and `return_type` calls are mixed: the parameters grow by
/// the types given to `param`, in call order; the result is the type given
/// to the last `return_type`, or stays as it was where there is no such
/// call; and the continuation stays.
pub proof fn law_signature_steps<F: Invoke<FunctionType>>(
    states: Seq<SignatureBuilder<F>>,
    steps: Seq<SignatureStep>,
)
    requires
        stepped_in_turn(states, steps),
    ensures
        states.last().pending()@.params == states[0].pending()@.params + params_of(steps),
        states.last().pending()@.return_type == match return_type_of(steps) {
            Some(value_type) => Some(value_type),
            None => states[0].pending()@.return_type,
        },
        states.last().continuation() == states[0].continuation(),
    decreases steps.len(),
{
    if steps.len() == 0 {
        assert(states.last().pending()@.params =~= states[0].pending()@.params + params_of(steps));
    } else {
        let n = steps.len() - 1;
        law_signature_steps(states.drop_last(), steps.drop_last());
        assert(steps_to(states[n], steps[n], states[n + 1]));
        assert(states.last().pending()@.params =~= states[0].pending()@.params + params_of(steps));
    }
}

/// The calls `param(t)` for each `t` of `params`, followed by
/// `return_type(t)` for each `t` of `results`.
pub open spec fn params_then_results(
    params: Seq<ValueType>,
    results: Seq<ValueType>,
) -> Seq<SignatureStep> {
    params.map_values(|t: ValueType| SignatureStep::Param(t)) + results.map_values(
        |t: ValueType| SignatureStep::ReturnType(t),
    )
}

/// `param(t1), param(t2), ..., return_type(t)` on a fresh builder: the
/// finished function type has the parameters `t1, t2, ...` in call order,
/// none where `param` was not called, and the result given to the last
/// `return_type`, none where `return_type` was not called.
pub proof fn law_params_then_return_type<F: Invoke<FunctionType>>(
    states: Seq<SignatureBuilder<F>>,
    params: Seq<ValueType>,
    results: Seq<ValueType>,
)
    requires
        stepped_in_turn(states, params_then_results(params, results)),
        states[0].pending()@.params == Seq::<ValueType>::empty(),
        states[0].pending()@.return_type == None::<ValueType>,
    ensures
        states.last().pending()@.params == params,
        states.last().pending()@.return_type == if results.len() == 0 {
            None
        } else {
            Some(results.last())
        },
{
    law_signature_steps(states, params_then_results(params, results));
    lemma_params_then_results(params, results);
    assert(states.last().pending()@.params =~= params);
}

/// What `params_of` and `return_type_of` make of parameters followed by
/// results.
proof fn lemma_params_then_results(params: Seq<ValueType>, results: Seq<ValueType>)
    ensures
        params_of(params_then_results(params, results)) == params,
        return_type_of(params_then_results(params, results)) == if results.len() == 0 {
            None
        } else {
            Some(results.last())
        },
    decreases results.len(), params.len(),
{
    let steps = params_then_results(params, results);
    if results.len() > 0 {
        lemma_params_then_results(params, results.drop_last());
        assert(steps.drop_last() =~= params_then_results(params, results.drop_last()));
    } else if params.len() > 0 {
        lemma_params_then_results(params.drop_last(), results);
        assert(steps.drop_last() =~= params_then_results(params.drop_last(), results));
        assert(params_of(steps) =~= params);
    } else {
        assert(steps.len() == 0);
        assert(params_of(steps) =~= params);
    }
}

} // verus!
