use pilatus_leptos::frozen::FrozenSignal;
use pilatus_leptos::leaf::{convert_to_local, convert_to_variable, read_leaf, write_leaf, LeafValue};
use pilatus_leptos::pipeline_error::{
    loaded_mask, read_stored, status_code_error, store_payload, write_stored, FetchError,
    LeptosPipelineError, PipelineError, RecoverPipelineError, StoreDispatch,
};
use pilatus_leptos::primitive_json::PrimitiveReadError;
use pilatus_leptos::primitive_value::{
    PilatusPrimitiveValue, PilatusPrimitiveValueKind, PilatusWrapperSettings, SerializedForm,
};
use pilatus_leptos::stored::{StoredRead, StoredSignal};
use pilatus_leptos::variables::{GetVariableError, VariableStore};

fn read_string(v: &serde_json::Value) -> Result<String, serde_json::Error> {
    serde_json::from_value(v.clone())
}

// ------------------------------------------------------------ frozen signal

#[test]
fn roundtrip() {
    let mut source = 21;
    let mut frozen = FrozenSignal::new();
    assert_eq!(21, *frozen.read(&source));
    frozen.set(&mut source, 42);
    assert_eq!(42, source);
    assert_eq!(21, *frozen.read(&source));
}

#[test]
fn frozen_signal_keeps_first_value_over_later_writes() {
    let mut source = 1;
    let mut frozen = FrozenSignal::new();
    assert!(!frozen.frozen());
    frozen.set(&mut source, 2);
    assert!(frozen.frozen());
    frozen.set(&mut source, 3);
    assert_eq!(3, source);
    assert_eq!(1, *frozen.read(&source));
}

// ------------------------------------------------------------ primitive values

#[test]
fn deserialize_value() {
    let input: serde_json::Value = serde_json::from_str(r#""Hello""#).unwrap();
    let store = VariableStore::new();
    let x = PilatusPrimitiveValue::<String>::from_json(&input, &store, read_string).unwrap();
    assert_eq!(x.value(), &"Hello".to_string());
    assert!(x.is_explicit());
    assert!(x.variable_name().is_none());
}

#[test]
fn deserialize_value_with_variable_name() {
    let mut store = VariableStore::new();
    assert!(store.set_variable("myvar".to_string(), serde_json::to_value("test_value")));
    let input: serde_json::Value = serde_json::from_str(r#"{"__var": "myvar"}"#).unwrap();
    let x = PilatusPrimitiveValue::<String>::from_json(&input, &store, read_string).unwrap();
    assert_eq!(x.value(), &"test_value".to_string());
    assert!(x.is_explicit());
    assert_eq!(Some("myvar"), x.variable_name());
}

#[test]
fn deserialize_value_with_invalid_variable_name() {
    // A field missing from the JSON of a parameter set reads as the default
    // parameter: implicit, with the default value.
    let input: serde_json::Value = serde_json::from_str("{}").unwrap();
    let store = VariableStore::new();
    let foo = match input.get("foo") {
        Some(json) => PilatusPrimitiveValue::<String>::from_json(json, &store, read_string).unwrap(),
        None => PilatusPrimitiveValue::default(),
    };
    assert!(foo.is_implicit());
    assert_eq!(foo.value(), &"".to_string());
    let created = PilatusWrapperSettings::create_primitive(String::default(), false);
    assert!(created.is_implicit());
    assert_eq!(created.value(), foo.value());
}

#[test]
fn reading_an_unknown_variable_reference_fails() {
    let store = VariableStore::new();
    let input: serde_json::Value = serde_json::from_str(r#"{"__var": "missing"}"#).unwrap();
    let r = PilatusPrimitiveValue::<String>::from_json(&input, &store, read_string);
    assert!(matches!(r, Err(PrimitiveReadError::VariableNotFound(n)) if n == "missing"));
}

#[test]
fn reading_an_invalid_variable_reference_fails() {
    let store = VariableStore::new();
    let input: serde_json::Value = serde_json::from_str(r#"{"__var": " bad"}"#).unwrap();
    let r = PilatusPrimitiveValue::<String>::from_json(&input, &store, read_string);
    assert!(matches!(r, Err(PrimitiveReadError::InvalidVariableName)));
}

#[test]
fn reading_a_value_of_the_wrong_type_fails() {
    let store = VariableStore::new();
    let input: serde_json::Value = serde_json::from_str("42").unwrap();
    let r = PilatusPrimitiveValue::<String>::from_json(&input, &store, read_string);
    assert!(matches!(r, Err(PrimitiveReadError::Value(_))));
}

#[test]
fn from_json_parts_reads_the_referenced_variable() {
    let mut store = VariableStore::new();
    store.set_variable("speed".to_string(), Ok(serde_json::Value::from("fast")));
    let input = serde_json::Value::Null;
    let x = PilatusPrimitiveValue::<String>::from_json_parts(Some("speed"), &input, &store, read_string)
        .unwrap();
    assert_eq!(x.value(), "fast");
    assert_eq!(x.variable_name(), Some("speed"));
}

#[test]
fn variable_references_need_valid_names() {
    assert!(PilatusPrimitiveValue::from_variable_reference("ok_name", 1).is_ok());
    assert!(PilatusPrimitiveValue::from_variable_reference("", 1).is_err());
    assert!(PilatusPrimitiveValue::from_variable_reference("trailing ", 1).is_err());
    assert!(PilatusPrimitiveValue::from_variable_reference("a/b", 1).is_err());
    assert!(PilatusPrimitiveValue::from_variable_reference(&"x".repeat(31), 1).is_err());
    assert!(PilatusPrimitiveValue::from_variable_reference(&"x".repeat(30), 1).is_ok());
}

#[test]
fn setting_an_implicit_value_makes_it_explicit() {
    let mut p = PilatusWrapperSettings::create_primitive(5, false);
    assert!(p.is_implicit());
    p.set(7);
    assert!(p.is_explicit());
    assert_eq!(*p.value(), 7);
}

#[test]
fn set_kind_to_variable_keeps_value_and_refuses_bad_names() {
    let mut p = PilatusPrimitiveValue::new(3);
    assert!(p.set_kind_to_variable("bad name ").is_err());
    assert_eq!(p.variable_name(), None);
    assert!(p.set_kind_to_variable("gain").is_ok());
    assert_eq!(p.variable_name(), Some("gain"));
    assert_eq!(*p.value(), 3);
    p.set_explicit(4);
    assert_eq!(p.variable_name(), Some("gain"));
    assert_eq!(*p.value(), 4);
}

#[test]
fn set_impex_writes_explicitness() {
    let mut p = PilatusPrimitiveValue::new(1);
    p.set_impex(2, false);
    assert!(p.is_implicit());
    p.set_impex(3, true);
    assert!(p.is_explicit());
    assert_eq!(p.into_value(), 3);
}

#[test]
fn serialized_forms() {
    let implicit: PilatusPrimitiveValue<u8> = PilatusPrimitiveValue::default();
    assert!(matches!(implicit.serialized_form(), SerializedForm::Null));
    let explicit = PilatusPrimitiveValue::new(9u8);
    assert!(matches!(explicit.serialized_form(), SerializedForm::Value(&9)));
    let bound = PilatusPrimitiveValue::from_variable_reference("v", 9u8).unwrap();
    assert!(matches!(bound.serialized_form(), SerializedForm::VariableRef("v")));
    assert!(matches!(bound.variable(), Some(v) if v == "v"));
}

#[test]
fn map_keeps_the_binding() {
    let bound = PilatusPrimitiveValue::from_variable_reference("v", 2).unwrap();
    let mapped = bound.map(|x| x * 10);
    assert_eq!(*mapped.value(), 20);
    assert_eq!(mapped.variable_name(), Some("v"));
    let mut implicit: PilatusPrimitiveValue<u8> = PilatusPrimitiveValue::default();
    implicit.make_explicit();
    assert!(implicit.is_explicit());
    let _ = PilatusPrimitiveValueKind::Explicit;
}

// ------------------------------------------------------------ variables and leaves

#[test]
fn variable_store_reads_what_was_written() {
    let mut store = VariableStore::new();
    assert!(matches!(store.get_variable(&"a".to_string()), Err(GetVariableError::NotFound)));
    assert!(store.set_variable("a".to_string(), Ok(serde_json::Value::from(1))));
    assert!(store.set_variable("b".to_string(), Ok(serde_json::Value::from(2))));
    assert!(store.set_variable("a".to_string(), Ok(serde_json::Value::from(3))));
    assert_eq!(store.get_variable(&"a".to_string()).unwrap(), &serde_json::Value::from(3));
    assert_eq!(store.get_variable(&"b".to_string()).unwrap(), &serde_json::Value::from(2));
    assert!(store.contains(&"b".to_string()));
    assert!(!store.contains(&"c".to_string()));
}

#[test]
fn variable_store_keeps_value_when_serialization_failed() {
    let mut store = VariableStore::new();
    store.set_variable("a".to_string(), Ok(serde_json::Value::from(1)));
    let failed: Result<serde_json::Value, serde_json::Error> = serde_json::from_str("{");
    assert!(!store.set_variable("a".to_string(), failed));
    assert_eq!(store.get_variable(&"a".to_string()).unwrap(), &serde_json::Value::from(1));
}

#[test]
fn leaf_read_after_write_through_variable() {
    let mut store = VariableStore::new();
    store.set_variable("lang".to_string(), Ok(serde_json::Value::from("de")));
    let mut field = PilatusPrimitiveValue::from_variable_reference("lang", "de".to_string()).unwrap();
    assert!(write_leaf(&mut field, &mut store, "en".to_string(), Ok(serde_json::Value::from("en"))));
    assert!(matches!(read_leaf(&field, &store), Ok(LeafValue::Variable(v)) if v == &serde_json::Value::from("en")));
    assert_eq!(field.value(), "de");
}

#[test]
fn leaf_read_after_write_of_local_value() {
    let mut store = VariableStore::new();
    let mut field = PilatusWrapperSettings::create_primitive(1u32, false);
    assert!(write_leaf(&mut field, &mut store, 5, Ok(serde_json::Value::from(5))));
    assert!(field.is_explicit());
    assert!(matches!(read_leaf(&field, &store), Ok(LeafValue::Local(&5))));
    assert!(!store.contains(&"x".to_string()));
}

#[test]
fn leaf_of_unknown_variable_is_not_found() {
    let store = VariableStore::new();
    let field = PilatusPrimitiveValue::from_variable_reference("gone", 0).unwrap();
    assert!(matches!(read_leaf(&field, &store), Err(GetVariableError::NotFound)));
}

#[test]
fn leaf_conversions() {
    let mut field = PilatusPrimitiveValue::new(1);
    assert_eq!(convert_to_variable(&mut field, " x"), Err("Invalid variable name".to_string()));
    assert_eq!(convert_to_variable(&mut field, "x"), Ok(()));
    assert_eq!(field.variable_name(), Some("x"));
    convert_to_local(&mut field, 8);
    assert_eq!(field.variable_name(), None);
    assert_eq!(*field.value(), 8);
}

// ------------------------------------------------------------ stored masks and errors

#[test]
fn loads_and_stores() {
    let mut resource = None;
    assert!(matches!(read_stored(resource.clone(), "test mask"), Err(LeptosPipelineError::NotAvailableYet(_))));
    let loaded = loaded_mask(Ok(Some(("mask 0..10", 1usize))));
    resource = Some(loaded);
    assert!(matches!(read_stored(resource.clone(), "test mask"), Ok("mask 0..10")));
    let dispatch = write_stored(&mut resource, Ok("mask 5..20"));
    assert_eq!(dispatch, StoreDispatch::Mask);
    assert!(matches!(read_stored(resource.clone(), "test mask"), Ok("mask 5..20")));
    assert!(matches!(store_payload(Ok("mask 5..20")), Ok(Some("mask 5..20"))));
}

#[test]
fn each_write_dispatches_one_store() {
    let mut resource: Option<Result<&str, LeptosPipelineError>> = None;
    assert_eq!(
        write_stored(&mut resource, Err(LeptosPipelineError::Pipeline(PipelineError::Empty))),
        StoreDispatch::NoMask
    );
    assert!(matches!(resource, Some(Err(LeptosPipelineError::Pipeline(PipelineError::Empty)))));
    assert_eq!(
        write_stored(&mut resource, Err(LeptosPipelineError::NotAvailableYet("m"))),
        StoreDispatch::Nothing
    );
    assert_eq!(
        write_stored(&mut resource, Err(LeptosPipelineError::Pipeline(PipelineError::Other("x".into())))),
        StoreDispatch::Nothing
    );
    assert_eq!(write_stored(&mut resource, Ok("m")), StoreDispatch::Mask);
}

#[test]
fn not_loaded_yet_falls_back_to_not_available() {
    let resource: Option<Result<&str, LeptosPipelineError>> = None;
    assert!(matches!(
        read_stored(resource, "test mask"),
        Err(LeptosPipelineError::NotAvailableYet("test mask"))
    ));
    let loaded = loaded_mask(Ok(Some(("mask 0..7", 1usize))));
    assert!(matches!(read_stored(Some(loaded), "test mask"), Ok("mask 0..7")));
}

#[test]
fn empty_mask_reads_as_pipeline_empty() {
    let loaded: Result<&str, _> =
        loaded_mask(Err(LeptosPipelineError::from(PipelineError::Empty)));
    assert!(matches!(
        read_stored(Some(loaded), "test mask"),
        Err(LeptosPipelineError::Pipeline(PipelineError::Empty))
    ));
    let no_ranges: Result<&str, _> = loaded_mask(Ok(Some(("nothing", 0usize))));
    assert!(matches!(no_ranges, Err(LeptosPipelineError::Pipeline(PipelineError::Empty))));
    let undecodable: Result<&str, _> = loaded_mask(Ok(None));
    assert!(matches!(undecodable, Err(LeptosPipelineError::Pipeline(PipelineError::Empty))));
}

#[test]
fn fetch_error_reads_as_missing_info() {
    let loaded: Result<&str, _> =
        loaded_mask(Err(LeptosPipelineError::from(FetchError::Other("boom".into()))));
    assert!(matches!(
        read_stored(Some(loaded), "test mask"),
        Err(LeptosPipelineError::MissingInfo(FetchError::Other(m))) if m == "boom"
    ));
}

#[test]
fn not_found_reads_as_empty_mask() {
    let e = LeptosPipelineError::from(FetchError::StatusCode(404, "gone".into()));
    assert!(matches!(e, LeptosPipelineError::Pipeline(PipelineError::Empty)));
    let e = LeptosPipelineError::from(FetchError::StatusCode(500, "down".into()));
    assert!(matches!(e, LeptosPipelineError::MissingInfo(FetchError::StatusCode(500, _))));
}

#[test]
fn writing_an_empty_mask_stores_no_mask() {
    let empty: Result<&str, _> = Err(LeptosPipelineError::Pipeline(PipelineError::Empty));
    assert!(matches!(store_payload(empty), Ok(None)));
    let other: Result<&str, _> = Err(LeptosPipelineError::Pipeline(PipelineError::Other("x".into())));
    assert!(matches!(store_payload(other), Err(LeptosPipelineError::Pipeline(PipelineError::Other(_)))));
    let missing: Result<&str, _> = Err(LeptosPipelineError::NotAvailableYet("m"));
    assert!(matches!(store_payload(missing), Err(LeptosPipelineError::NotAvailableYet("m"))));
}

#[test]
fn recover_pipeline_error_only_touches_pipeline_errors() {
    let r: Result<Option<u8>, LeptosPipelineError> =
        Err::<u8, _>(LeptosPipelineError::Pipeline(PipelineError::Empty))
            .recover_pipeline_error(|e| e.allow_empty());
    assert!(matches!(r, Ok(None)));
    let r: Result<Option<u8>, LeptosPipelineError> =
        Ok::<u8, LeptosPipelineError>(3).recover_pipeline_error(|e| e.allow_empty());
    assert!(matches!(r, Ok(Some(3))));
    let r: Result<Option<u8>, LeptosPipelineError> = LeptosPipelineError::MissingInfo(
        FetchError::Other("x".into()),
    )
    .recover_pipeline_error(|_| Ok(Some(1)));
    assert!(matches!(r, Err(LeptosPipelineError::MissingInfo(_))));
    let r: Result<Option<u8>, LeptosPipelineError> =
        Err::<u8, _>(LeptosPipelineError::NotAvailableYet("m")).allow_empty();
    assert!(matches!(r, Err(LeptosPipelineError::NotAvailableYet("m"))));
}

#[test]
fn status_code_error_prefers_body() {
    assert!(matches!(
        status_code_error(400, Some("bad input".into()), "Bad Request".into()),
        FetchError::StatusCode(400, b) if b == "bad input"
    ));
    assert!(matches!(
        status_code_error(503, None, "Service Unavailable".into()),
        FetchError::StatusCode(503, b) if b == "Service Unavailable"
    ));
}

#[test]
fn fetch_error_messages() {
    assert_eq!(FetchError::StatusCode(404, "not here".into()).message(), "Http 404: not here");
    assert_eq!(FetchError::StatusCode(0, "".into()).message(), "Http 0: ");
    assert_eq!(FetchError::Other("boom".into()).message(), "boom");
    let e = serde_json::from_str::<serde_json::Value>("{").unwrap_err();
    let text = e.to_string();
    let m = FetchError::Deserialize(std::sync::Arc::new(e)).message();
    assert_eq!(m, format!("Invalid data: {text}"));
}

fn written(p: &PilatusPrimitiveValue<String>) -> serde_json::Value {
    p.to_json(|v: &String| serde_json::to_value(v)).unwrap()
}

#[test]
fn written_parameter_reads_back() {
    let mut store = VariableStore::new();
    store.set_variable("v".to_string(), Ok(serde_json::Value::from("stored")));
    let bound = PilatusPrimitiveValue::from_variable_reference("v", "local".to_string()).unwrap();
    let back = PilatusPrimitiveValue::<String>::from_json(&written(&bound), &store, read_string).unwrap();
    assert_eq!(back.variable_name(), Some("v"));
    assert_eq!(back.value(), "stored");
    let explicit = PilatusPrimitiveValue::new("plain".to_string());
    let back = PilatusPrimitiveValue::<String>::from_json(&written(&explicit), &store, read_string).unwrap();
    assert!(back.is_explicit());
    assert_eq!(back.variable_name(), None);
    assert_eq!(back.value(), "plain");
}

#[test]
fn parameters_are_written_as_json() {
    let implicit: PilatusPrimitiveValue<String> = PilatusPrimitiveValue::default();
    assert_eq!(written(&implicit), serde_json::Value::Null);
    let bound = PilatusPrimitiveValue::from_variable_reference("lang", "de".to_string()).unwrap();
    let reference = written(&bound);
    assert_eq!(reference.get("__var").and_then(|v| v.as_str()), Some("lang"));
    assert_eq!(reference.as_object().map(|o| o.len()), Some(1));
    let explicit = PilatusPrimitiveValue::new("en".to_string());
    assert_eq!(written(&explicit), serde_json::Value::from("en"));
}

#[test]
fn only_string_references_bind() {
    let store = VariableStore::new();
    let input: serde_json::Value = serde_json::from_str(r#"{"__var": 3}"#).unwrap();
    let r = PilatusPrimitiveValue::<String>::from_json(&input, &store, read_string);
    assert!(matches!(r, Err(PrimitiveReadError::Value(_))));
}

#[test]
fn a_default_parameter_is_implicit_with_the_default_value() {
    let p: PilatusPrimitiveValue<String> = PilatusPrimitiveValue::default();
    assert!(p.is_implicit());
    assert_eq!(p.value(), "");
    let n: PilatusPrimitiveValue<i32> = PilatusPrimitiveValue::default();
    assert!(n.is_implicit());
    assert_eq!(*n.value(), 0);
}

#[test]
fn a_stored_mask_reads_what_was_set_at_once() {
    let mut mask: StoredSignal<&str> = StoredSignal::new("mask");
    assert!(matches!(mask.get(), StoredRead::NotAvailableYet("mask")));
    assert_eq!(mask.set(Ok("0..5")), StoreDispatch::Mask);
    assert!(matches!(mask.get(), StoredRead::Value(&"0..5")));
    mask.resolve(Ok("loaded later"));
    assert!(matches!(mask.get(), StoredRead::Value(&"loaded later")));
    assert_eq!(
        mask.set(Err(LeptosPipelineError::Pipeline(PipelineError::Empty))),
        StoreDispatch::NoMask
    );
    assert!(matches!(
        mask.get(),
        StoredRead::Failed(LeptosPipelineError::Pipeline(PipelineError::Empty))
    ));
    assert_eq!(mask.set(Err(LeptosPipelineError::NotAvailableYet("m"))), StoreDispatch::Nothing);
    assert!(matches!(mask.get(), StoredRead::Failed(LeptosPipelineError::NotAvailableYet("m"))));
    assert_eq!(mask.set(Ok("6..9")), StoreDispatch::Mask);
    assert!(matches!(mask.get(), StoredRead::Value(&"6..9")));
}
