use nexus::extensions::{default_true, ExtensionError, ExtensionManifest, ExtensionType, LoadedExtension, RuntimeType};
use nexus::json::{JsonNumber, JsonValue};
use nexus::wasm::{wasm_input, wasm_input_range, wasm_output, wasm_result_region, wasm_source_check, ResultRegion};

fn extension(source: Vec<u8>) -> LoadedExtension {
    LoadedExtension {
        manifest: ExtensionManifest {
            name: "w".to_string(),
            extension_type: ExtensionType::Hook,
            version: "1.0.0".to_string(),
            description: String::new(),
            icon: String::new(),
            entrypoint: None,
            language: None,
            options: None,
            path: None,
            enabled: default_true(),
            entries: vec![],
        },
        runtime: RuntimeType::Wasm,
        path: "e/w".to_string(),
        source,
    }
}

fn num(n: u64) -> JsonValue {
    JsonValue::Number(JsonNumber::PosInt(n))
}

#[test]
fn module_bytes_are_required() {
    match wasm_source_check(&extension(vec![])) {
        Err(ExtensionError::LoadFailed(m)) => assert_eq!(m, "Extension has no WASM source"),
        _ => panic!("Expected load failure"),
    }
    assert!(wasm_source_check(&extension(vec![0, 97, 115, 109])).is_ok());
}

#[test]
fn input_document_text() {
    let payload = JsonValue::Object(vec![("a".to_string(), num(1))]);
    assert_eq!(wasm_input("items.create", &payload), "{\"event\":\"items.create\",\"payload\":{\"a\":1}}");
}

#[test]
fn input_must_fit_in_memory() {
    assert_eq!(wasm_input_range(16, 10, 100).unwrap(), (16, 26));
    assert_eq!(wasm_input_range(90, 10, 100).unwrap(), (90, 100));
    for (ptr, len) in [(-1, 1), (95, 10)] {
        match wasm_input_range(ptr, len, 100) {
            Err(ExtensionError::ExecutionFailed(m)) => assert_eq!(m, "WASM memory too small for input"),
            _ => panic!("Expected failure"),
        }
    }
}

#[test]
fn result_word_unpacks_offset_and_length() {
    match wasm_result_region((64i64 << 32) | 5, 100).unwrap() {
        ResultRegion::Bytes { start, len } => assert_eq!((start, len), (64, 5)),
        ResultRegion::Empty => panic!("Expected bytes"),
    }
    assert!(matches!(wasm_result_region(64i64 << 32, 100).unwrap(), ResultRegion::Empty));
    for packed in [(98i64 << 32) | 5, -1i64] {
        match wasm_result_region(packed, 100) {
            Err(ExtensionError::ExecutionFailed(m)) => assert_eq!(m, "WASM result pointer out of bounds"),
            _ => panic!("Expected out of bounds"),
        }
    }
}

#[test]
fn output_unwraps_payload() {
    let wrapped = JsonValue::Object(vec![("payload".to_string(), num(3)), ("x".to_string(), num(1))]);
    assert!(matches!(wasm_output(wrapped), JsonValue::Number(JsonNumber::PosInt(3))));
    let plain = JsonValue::Object(vec![("x".to_string(), num(1))]);
    match wasm_output(plain) {
        JsonValue::Object(m) => assert_eq!(m.len(), 1),
        _ => panic!("Expected the document"),
    }
}
