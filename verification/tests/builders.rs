use functions_builder::builder::code::{
    function, FunctionsBuilder, Signature, SignatureBindings, SignatureBuilder, TypeRefBuilder,
};
use functions_builder::builder::invoke::{Identity, Invoke};
use functions_builder::elements::{Func, FunctionType, FunctionsSection, ValueType};

/// A continuation of the caller's own: it counts what it is given.
struct Count;

impl Invoke<SignatureBindings> for Count {
    type Result = usize;

    fn invoke(self, bindings: SignatureBindings) -> usize {
        bindings.len()
    }
}

impl Invoke<FunctionsSection> for Count {
    type Result = usize;

    fn invoke(self, section: FunctionsSection) -> usize {
        section.entries().len()
    }
}

/// A continuation of the caller's own: it keeps a label beside the value.
struct Labelled(&'static str);

impl Invoke<u32> for Labelled {
    type Result = (&'static str, u32);

    fn invoke(self, index: u32) -> (&'static str, u32) {
        (self.0, index)
    }
}

impl Invoke<FunctionType> for Labelled {
    type Result = (&'static str, FunctionType);

    fn invoke(self, function_type: FunctionType) -> (&'static str, FunctionType) {
        (self.0, function_type)
    }
}

#[test]
fn example() {
    let result = function()
        .type_ref().val(1).build()
        .build();

    assert_eq!(result.entries().len(), 1);

    let result = function()
        .signature()
            .param(ValueType::I32)
            .param(ValueType::I32)
            .return_type(ValueType::I64)
            .build()
        .bind();

    assert_eq!(result.len(), 1);
}

#[test]
fn one_type_ref_builds_one_entry() {
    let section = function().type_ref().val(1).build().build();

    assert_eq!(section.entries().len(), 1);
    assert_eq!(section.entries()[0].type_ref(), 1);
    assert_eq!(section.entries(), &[Func::new(1)]);
}

#[test]
fn one_inline_signature_binds_one_element() {
    let bindings = function()
        .signature()
        .param(ValueType::I32)
        .param(ValueType::I32)
        .return_type(ValueType::I64)
        .build()
        .bind();

    assert_eq!(bindings.len(), 1);
    match &bindings[0] {
        Signature::Inline(function_type) => {
            assert_eq!(function_type.params(), &[ValueType::I32, ValueType::I32]);
            assert_eq!(function_type.return_type(), Some(ValueType::I64));
        }
        Signature::TypeReference(_) => panic!("an inline signature was appended"),
    }
}

#[test]
fn type_refs_keep_call_order() {
    let section = function()
        .type_ref().val(7).build()
        .type_ref().val(0).build()
        .type_ref().val(7).build()
        .type_ref().val(u32::MAX).build()
        .build();

    let indices: Vec<u32> = section.entries().iter().map(|entry| entry.type_ref()).collect();
    assert_eq!(indices, vec![7, 0, 7, u32::MAX]);
}

#[test]
fn empty_accumulator_builds_empty_section() {
    let section = function().build();

    assert_eq!(section.entries().len(), 0);
    assert_eq!(section, FunctionsSection::new());
}

#[test]
fn empty_accumulator_binds_nothing() {
    let bindings = FunctionsBuilder::new().bind();

    assert_eq!(bindings.len(), 0);
}

#[test]
fn params_keep_call_order() {
    let function_type = SignatureBuilder::with_callback(Identity)
        .param(ValueType::I64)
        .param(ValueType::F32)
        .param(ValueType::I32)
        .param(ValueType::F64)
        .return_type(ValueType::F32)
        .build();

    assert_eq!(
        function_type.params(),
        &[ValueType::I64, ValueType::F32, ValueType::I32, ValueType::F64]
    );
    assert_eq!(function_type.return_type(), Some(ValueType::F32));
}

#[test]
fn last_return_type_wins() {
    let function_type = SignatureBuilder::with_callback(Identity)
        .return_type(ValueType::I32)
        .param(ValueType::F64)
        .return_type(ValueType::I64)
        .return_type(ValueType::F32)
        .build();

    assert_eq!(function_type.params(), &[ValueType::F64]);
    assert_eq!(function_type.return_type(), Some(ValueType::F32));
}

#[test]
fn no_calls_build_the_default_function_type() {
    let function_type = SignatureBuilder::with_callback(Identity).build();

    assert_eq!(function_type.params().len(), 0);
    assert_eq!(function_type.return_type(), None);
    assert_eq!(function_type, FunctionType::default());
}

#[test]
fn return_type_without_params() {
    let function_type = SignatureBuilder::with_callback(Identity)
        .return_type(ValueType::I32)
        .build();

    assert_eq!(function_type.params().len(), 0);
    assert_eq!(function_type.return_type(), Some(ValueType::I32));
}

#[test]
fn type_ref_defaults_to_zero() {
    assert_eq!(TypeRefBuilder::with_callback(Identity).build(), 0);
}

#[test]
fn last_val_wins() {
    assert_eq!(TypeRefBuilder::with_callback(Identity).val(3).val(9).build(), 9);
    assert_eq!(TypeRefBuilder::with_callback(Identity).val(9).val(0).build(), 0);
}

#[test]
fn identity_returns_its_argument() {
    assert_eq!(Identity.invoke(5u32), 5);
    assert_eq!(Identity.invoke(vec![1u8, 2, 3]), vec![1u8, 2, 3]);

    let section = function().type_ref().val(4).build().build();
    assert_eq!(Identity.invoke(section).entries(), &[Func::new(4)]);
}

#[test]
fn bind_keeps_the_mix_in_call_order() {
    let inline = SignatureBuilder::with_callback(Identity)
        .param(ValueType::F32)
        .build();
    let bindings = function()
        .with_signature(Signature::TypeReference(5))
        .with_signature(Signature::Inline(inline))
        .type_ref().val(2).build()
        .signature().return_type(ValueType::I64).build()
        .with_signature(Signature::TypeReference(5))
        .bind();

    assert_eq!(bindings.len(), 5);
    assert!(matches!(bindings[0], Signature::TypeReference(5)));
    match &bindings[1] {
        Signature::Inline(function_type) => {
            assert_eq!(function_type.params(), &[ValueType::F32]);
            assert_eq!(function_type.return_type(), None);
        }
        Signature::TypeReference(_) => panic!("the second signature is inline"),
    }
    assert!(matches!(bindings[2], Signature::TypeReference(2)));
    match &bindings[3] {
        Signature::Inline(function_type) => {
            assert_eq!(function_type.params().len(), 0);
            assert_eq!(function_type.return_type(), Some(ValueType::I64));
        }
        Signature::TypeReference(_) => panic!("the fourth signature is inline"),
    }
    assert!(matches!(bindings[4], Signature::TypeReference(5)));
}

#[test]
fn with_signature_then_build() {
    let section = function()
        .with_signature(Signature::TypeReference(3))
        .with_signature(Signature::TypeReference(1))
        .build();

    assert_eq!(section.entries(), &[Func::new(3), Func::new(1)]);
}

#[test]
fn accumulator_is_a_continuation() {
    let after_index = function().invoke(8u32);
    let mut function_type = FunctionType::default();
    function_type.params_mut().push(ValueType::I32);
    *function_type.return_type_mut() = Some(ValueType::I32);
    let bindings = after_index.invoke(function_type).bind();

    assert_eq!(bindings.len(), 2);
    assert!(matches!(bindings[0], Signature::TypeReference(8)));
    match &bindings[1] {
        Signature::Inline(function_type) => {
            assert_eq!(function_type.params(), &[ValueType::I32]);
            assert_eq!(function_type.return_type(), Some(ValueType::I32));
        }
        Signature::TypeReference(_) => panic!("the second signature is inline"),
    }
}

#[test]
fn nested_accumulators() {
    let bindings = FunctionsBuilder::with_callback(Identity)
        .type_ref().val(1).build()
        .signature().param(ValueType::I32).build()
        .bind();
    let section = bindings
        .iter()
        .fold(FunctionsBuilder::new(), |builder, signature| match signature {
            Signature::TypeReference(index) => builder.type_ref().val(*index).build(),
            Signature::Inline(_) => builder,
        })
        .build();

    assert_eq!(bindings.len(), 2);
    assert_eq!(section.entries(), &[Func::new(1)]);
}

#[test]
fn section_entries_can_be_changed() {
    let mut section = function().type_ref().val(6).build().build();
    section.entries_mut().push(Func::new(2));

    assert_eq!(section.entries(), &[Func::new(6), Func::new(2)]);
}

#[test]
fn build_returns_what_the_continuation_yields() {
    let label = TypeRefBuilder::with_callback(Labelled("index")).val(12).build();
    assert_eq!(label, ("index", 12));

    let (name, function_type) = SignatureBuilder::with_callback(Labelled("type"))
        .param(ValueType::I64)
        .return_type(ValueType::I32)
        .build();
    assert_eq!(name, "type");
    assert_eq!(function_type.params(), &[ValueType::I64]);
    assert_eq!(function_type.return_type(), Some(ValueType::I32));
}

#[test]
fn accumulator_hands_on_to_its_continuation() {
    let bound = FunctionsBuilder::with_callback(Count)
        .type_ref().val(1).build()
        .signature().param(ValueType::I32).build()
        .type_ref().val(2).build()
        .bind();
    assert_eq!(bound, 3);

    let built = FunctionsBuilder::with_callback(Count)
        .type_ref().val(1).build()
        .type_ref().val(2).build()
        .build();
    assert_eq!(built, 2);
}
