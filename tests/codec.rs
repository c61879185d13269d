use wasm_bridge::{
    decode_callback_results, decode_values, encode_values, signature, BridgeError, EngineValue,
    HostType, Value,
};

fn to_engine_value(v: &wasmer::Value) -> EngineValue {
    match v {
        wasmer::Value::I32(x) => EngineValue::I32(*x),
        wasmer::Value::I64(x) => EngineValue::I64(*x),
        wasmer::Value::F32(x) => EngineValue::F32(x.to_bits()),
        wasmer::Value::F64(x) => EngineValue::F64(x.to_bits()),
        wasmer::Value::V128(x) => EngineValue::V128(*x),
        wasmer::Value::ExternRef(_) => EngineValue::ExternRef,
        wasmer::Value::FuncRef(_) => EngineValue::FuncRef,
    }
}

fn to_wasmer_value(v: &EngineValue) -> wasmer::Value {
    match v {
        EngineValue::I32(x) => wasmer::Value::I32(*x),
        EngineValue::I64(x) => wasmer::Value::I64(*x),
        EngineValue::F32(b) => wasmer::Value::F32(f32::from_bits(*b)),
        EngineValue::F64(b) => wasmer::Value::F64(f64::from_bits(*b)),
        EngineValue::V128(x) => wasmer::Value::V128(*x),
        EngineValue::ExternRef => wasmer::Value::null(),
        EngineValue::FuncRef => wasmer::Value::FuncRef(None),
    }
}

#[test]
fn values_round_trip_exactly() {
    let values = vec![
        Value::I32(0),
        Value::I32(-1),
        Value::I32(i32::MIN),
        Value::I32(i32::MAX),
        Value::I64(0),
        Value::I64(-7),
        Value::I64(i64::MIN),
        Value::I64(i64::MAX),
        Value::F32(0.0f32.to_bits()),
        Value::F32((-0.0f32).to_bits()),
        Value::F32(f32::NAN.to_bits() | 1),
        Value::F32(1.5f32.to_bits()),
    ];
    let engine = decode_values(&values).unwrap();
    assert_eq!(engine.len(), values.len());
    assert_eq!(engine[2], EngineValue::I32(i32::MIN));
    assert_eq!(engine[9], EngineValue::F32(0x8000_0000));
    assert_eq!(encode_values(&engine).unwrap(), values);
    let through: Vec<EngineValue> = engine.iter().map(to_wasmer_value).map(|v| to_engine_value(&v)).collect();
    assert_eq!(through, engine);
}

#[test]
fn unsupported_kinds_rejected() {
    assert_eq!(Value::ExternalRef.to_engine(), Err(BridgeError::UnsupportedValueKind));
    assert_eq!(Value::FuncRef.to_engine(), Err(BridgeError::UnsupportedValueKind));
    assert_eq!(Value::U128.to_engine(), Err(BridgeError::UnsupportedValueKind));
    assert_eq!(EngineValue::V128(3).to_host(), Err(BridgeError::UnsupportedValueKind));
    assert_eq!(EngineValue::F64(0).to_host(), Err(BridgeError::UnsupportedValueKind));
    assert_eq!(EngineValue::ExternRef.to_host(), Err(BridgeError::UnsupportedValueKind));
    assert_eq!(
        decode_values(&vec![Value::I32(1), Value::U128, Value::I32(2)]),
        Err(BridgeError::UnsupportedValueKind)
    );
    assert_eq!(
        encode_values(&vec![EngineValue::I64(1), EngineValue::FuncRef]),
        Err(BridgeError::UnsupportedValueKind)
    );
}

#[test]
fn callback_results_checked_against_signature() {
    let declared = vec![HostType::I32, HostType::F32];
    assert_eq!(
        decode_callback_results(&vec![Value::I32(1), Value::F32(7)], &declared),
        Ok(vec![EngineValue::I32(1), EngineValue::F32(7)])
    );
    assert_eq!(
        decode_callback_results(&vec![Value::I32(1)], &declared),
        Err(BridgeError::SignatureMismatch)
    );
    assert_eq!(
        decode_callback_results(&vec![Value::I64(1), Value::F32(7)], &declared),
        Err(BridgeError::SignatureMismatch)
    );
    assert_eq!(
        decode_callback_results(&vec![Value::FuncRef, Value::F32(7)], &declared),
        Err(BridgeError::UnsupportedValueKind)
    );
}

#[test]
fn types_round_trip_and_build_signatures() {
    let all = vec![
        HostType::I32,
        HostType::I64,
        HostType::F32,
        HostType::F64,
        HostType::V128,
        HostType::ExternRef,
        HostType::FuncRef,
    ];
    for t in &all {
        assert_eq!(HostType::from_engine(t.to_engine()), *t);
    }
    assert_eq!(HostType::F64.to_engine(), wasmer::Type::F64);
    let sig = signature(&vec![HostType::I64, HostType::V128], &all);
    assert_eq!(sig.params(), &[wasmer::Type::I64, wasmer::Type::V128]);
    assert_eq!(sig.results().len(), 7);
    assert_eq!(sig.results()[5], wasmer::Type::ExternRef);
}

#[test]
fn error_messages_name_the_failure() {
    assert_eq!(BridgeError::NotFound.message(), "no function is exported under that name");
    assert_eq!(BridgeError::Link.message(), "could not link the module against its imports");
}
