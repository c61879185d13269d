//! The value codec: host tagged values and the engine's runtime values.
//!
//! Floats cross as their IEEE-754 bit patterns, so every conversion here is
//! exact and keeps NaN payloads and the sign of zero.
use vstd::prelude::*;
use crate::error::BridgeError;
use crate::types::HostType;

verus! {

/// A host tagged value. Only the three numeric kinds can cross the boundary;
/// the reference and vector tags exist so that the host can name them.
#[derive(Clone, Copy, Debug, PartialEq, Eq, Structural)]
pub enum Value {
    I32(i32),
    I64(i64),
    /// A 32-bit float, held as its bit pattern.
    F32(u32),
    ExternalRef,
    FuncRef,
    U128,
}

/// An engine runtime value, one variant for each kind that the engine runs.
/// Floats are held as bit patterns; references carry nothing that this
/// library reads.
#[derive(Clone, Copy, Debug, PartialEq, Eq, Structural)]
pub enum EngineValue {
    I32(i32),
    I64(i64),
    F32(u32),
    F64(u64),
    V128(u128),
    ExternRef,
    FuncRef,
}

/// Whether a host value is of a kind that can cross into the engine.
pub open spec fn host_supported(v: Value) -> bool {
    v is I32 || v is I64 || v is F32
}

/// Whether an engine value is of a kind that can cross to the host.
pub open spec fn engine_supported(e: EngineValue) -> bool {
    e is I32 || e is I64 || e is F32
}

/// Decoding of one host value into the engine.
pub open spec fn decode_value(v: Value) -> Result<EngineValue, BridgeError> {
    match v {
        Value::I32(x) => Ok(EngineValue::I32(x)),
        Value::I64(x) => Ok(EngineValue::I64(x)),
        Value::F32(b) => Ok(EngineValue::F32(b)),
        _ => Err(BridgeError::UnsupportedValueKind),
    }
}

/// Encoding of one engine value for the host.
pub open spec fn encode_value(e: EngineValue) -> Result<Value, BridgeError> {
    match e {
        EngineValue::I32(x) => Ok(Value::I32(x)),
        EngineValue::I64(x) => Ok(Value::I64(x)),
        EngineValue::F32(b) => Ok(Value::F32(b)),
        _ => Err(BridgeError::UnsupportedValueKind),
    }
}

/// Decoding of an ordered sequence: all of it, in order, or nothing.
pub open spec fn decode_all(s: Seq<Value>) -> Result<Seq<EngineValue>, BridgeError> {
    if forall|i: int| 0 <= i < s.len() ==> host_supported(#[trigger] s[i]) {
        Ok(s.map_values(|v: Value| decode_value(v)->Ok_0))
    } else {
        Err(BridgeError::UnsupportedValueKind)
    }
}

/// Encoding of an ordered sequence: all of it, in order, or nothing.
pub open spec fn encode_all(s: Seq<EngineValue>) -> Result<Seq<Value>, BridgeError> {
    if forall|i: int| 0 <= i < s.len() ==> engine_supported(#[trigger] s[i]) {
        Ok(s.map_values(|e: EngineValue| encode_value(e)->Ok_0))
    } else {
        Err(BridgeError::UnsupportedValueKind)
    }
}

/// The declared kind that an engine value has.
pub open spec fn kind_of(e: EngineValue) -> HostType {
    match e {
        EngineValue::I32(_) => HostType::I32,
        EngineValue::I64(_) => HostType::I64,
        EngineValue::F32(_) => HostType::F32,
        EngineValue::F64(_) => HostType::F64,
        EngineValue::V128(_) => HostType::V128,
        EngineValue::ExternRef => HostType::ExternRef,
        EngineValue::FuncRef => HostType::FuncRef,
    }
}

/// Whether a sequence of engine values matches a declared kind sequence.
pub open spec fn matches_kinds(s: Seq<EngineValue>, declared: Seq<HostType>) -> bool {
    s.len() == declared.len() && forall|i: int| 0 <= i < s.len() ==> kind_of(#[trigger] s[i]) == declared[i]
}

/// The results that a host callback hands back to the engine: decoded in
/// order, then held to the declared result kinds.
pub open spec fn callback_results(s: Seq<Value>, declared: Seq<HostType>) -> Result<Seq<EngineValue>, BridgeError> {
    match decode_all(s) {
        Ok(t) => if matches_kinds(t, declared) {
            Ok(t)
        } else {
            Err(BridgeError::SignatureMismatch)
        },
        Err(e) => Err(e),
    }
}

impl Value {
    /// Decodes this host value into the engine; reference and vector kinds fail.
    pub fn to_engine(self) -> (r: Result<EngineValue, BridgeError>)
        ensures
            r == decode_value(self),
    {
        match self {
            Value::I32(x) => Ok(EngineValue::I32(x)),
            Value::I64(x) => Ok(EngineValue::I64(x)),
            Value::F32(b) => Ok(EngineValue::F32(b)),
            _ => Err(BridgeError::UnsupportedValueKind),
        }
    }
}

impl EngineValue {
    /// Encodes this engine value for the host; only the supported kinds succeed.
    pub fn to_host(self) -> (r: Result<Value, BridgeError>)
        ensures
            r == encode_value(self),
    {
        match self {
            EngineValue::I32(x) => Ok(Value::I32(x)),
            EngineValue::I64(x) => Ok(Value::I64(x)),
            EngineValue::F32(b) => Ok(Value::F32(b)),
            _ => Err(BridgeError::UnsupportedValueKind),
        }
    }

    /// The declared kind of this value.
    pub fn kind(&self) -> (r: HostType)
        ensures
            r == kind_of(*self),
    {
        match self {
            EngineValue::I32(_) => HostType::I32,
            EngineValue::I64(_) => HostType::I64,
            EngineValue::F32(_) => HostType::F32,
            EngineValue::F64(_) => HostType::F64,
            EngineValue::V128(_) => HostType::V128,
            EngineValue::ExternRef => HostType::ExternRef,
            EngineValue::FuncRef => HostType::FuncRef,
        }
    }
}

/// Decodes call arguments in order; fails as a whole on the first
/// unsupported kind.
pub fn decode_values(vs: &Vec<Value>) -> (r: Result<Vec<EngineValue>, BridgeError>)
    ensures
        match (r, decode_all(vs@)) {
            (Ok(out), Ok(t)) => out@ == t,
            (Err(e), Err(f)) => e == f,
            _ => false,
        },
{
    let mut out: Vec<EngineValue> = Vec::new();
    let mut i: usize = 0;
    while i < vs.len()
        invariant
            i <= vs@.len(),
            out@.len() == i,
            forall|j: int| 0 <= j < i ==> host_supported(#[trigger] vs@[j]),
            forall|j: int| 0 <= j < i ==> #[trigger] out@[j] == decode_value(vs@[j])->Ok_0,
        decreases vs@.len() - i,
    {
        match vs[i].to_engine() {
            Ok(e) => out.push(e),
            Err(err) => {
                assert(!host_supported(vs@[i as int]));
                return Err(err);
            },
        }
        i = i + 1;
    }
    assert(out@ =~= vs@.map_values(|v: Value| decode_value(v)->Ok_0));
    Ok(out)
}

/// Encodes call results in order; fails as a whole on the first
/// unsupported kind.
pub fn encode_values(es: &Vec<EngineValue>) -> (r: Result<Vec<Value>, BridgeError>)
    ensures
        match (r, encode_all(es@)) {
            (Ok(out), Ok(t)) => out@ == t,
            (Err(e), Err(f)) => e == f,
            _ => false,
        },
{
    let mut out: Vec<Value> = Vec::new();
    let mut i: usize = 0;
    while i < es.len()
        invariant
            i <= es@.len(),
            out@.len() == i,
            forall|j: int| 0 <= j < i ==> engine_supported(#[trigger] es@[j]),
            forall|j: int| 0 <= j < i ==> #[trigger] out@[j] == encode_value(es@[j])->Ok_0,
        decreases es@.len() - i,
    {
        match es[i].to_host() {
            Ok(v) => out.push(v),
            Err(err) => {
                assert(!engine_supported(es@[i as int]));
                return Err(err);
            },
        }
        i = i + 1;
    }
    assert(out@ =~= es@.map_values(|e: EngineValue| encode_value(e)->Ok_0));
    Ok(out)
}

/// Whether engine values match a declared kind sequence, element by element.
pub fn check_kinds(es: &Vec<EngineValue>, declared: &Vec<HostType>) -> (r: bool)
    ensures
        r == matches_kinds(es@, declared@),
{
    if es.len() != declared.len() {
        return false;
    }
    let mut i: usize = 0;
    while i < es.len()
        invariant
            i <= es@.len(),
            es@.len() == declared@.len(),
            forall|j: int| 0 <= j < i ==> kind_of(#[trigger] es@[j]) == declared@[j],
        decreases es@.len() - i,
    {
        if es[i].kind() != declared[i] {
            return false;
        }
        i = i + 1;
    }
    true
}

/// Turns what a host callback returned into the engine values of its
/// results, held to the callback's declared result kinds.
pub fn decode_callback_results(vs: &Vec<Value>, declared: &Vec<HostType>) -> (r: Result<Vec<EngineValue>, BridgeError>)
    ensures
        match (r, callback_results(vs@, declared@)) {
            (Ok(out), Ok(t)) => out@ == t,
            (Err(e), Err(f)) => e == f,
            _ => false,
        },
{
    let decoded = decode_values(vs)?;
    if check_kinds(&decoded, declared) {
        Ok(decoded)
    } else {
        Err(BridgeError::SignatureMismatch)
    }
}

/// Each supported value comes back unchanged from a trip through the other
/// side, in both directions.
pub proof fn value_round_trip(v: Value, e: EngineValue)
    ensures
        host_supported(v) ==> decode_value(v) is Ok && encode_value(decode_value(v)->Ok_0) == Ok::<Value, BridgeError>(v),
        engine_supported(e) ==> encode_value(e) is Ok && decode_value(encode_value(e)->Ok_0) == Ok::<EngineValue, BridgeError>(e),
{
}

/// Reference and vector kinds are refused in both directions, and a sequence
/// holding one is refused whole, with no partial result.
pub proof fn unsupported_kinds_rejected(v: Value, e: EngineValue, s: Seq<Value>, t: Seq<EngineValue>, i: int)
    ensures
        !host_supported(v) ==> decode_value(v) == Err::<EngineValue, BridgeError>(BridgeError::UnsupportedValueKind),
        !engine_supported(e) ==> encode_value(e) == Err::<Value, BridgeError>(BridgeError::UnsupportedValueKind),
        0 <= i < s.len() && !host_supported(s[i]) ==> decode_all(s) == Err::<Seq<EngineValue>, BridgeError>(BridgeError::UnsupportedValueKind),
        0 <= i < t.len() && !engine_supported(t[i]) ==> encode_all(t) == Err::<Seq<Value>, BridgeError>(BridgeError::UnsupportedValueKind),
{
}

/// Sequence conversion keeps arity and order: the i-th output is the i-th
/// input converted, and a converted sequence converts back to the original.
pub proof fn sequence_arity_and_order(s: Seq<Value>, t: Seq<EngineValue>)
    ensures
        decode_all(s) is Ok ==> {
            let d = decode_all(s)->Ok_0;
            &&& d.len() == s.len()
            &&& forall|i: int| 0 <= i < s.len() ==> Ok::<EngineValue, BridgeError>(#[trigger] d[i]) == decode_value(s[i])
            &&& encode_all(d) == Ok::<Seq<Value>, BridgeError>(s)
        },
        encode_all(t) is Ok ==> {
            let d = encode_all(t)->Ok_0;
            &&& d.len() == t.len()
            &&& forall|i: int| 0 <= i < t.len() ==> Ok::<Value, BridgeError>(#[trigger] d[i]) == encode_value(t[i])
            &&& decode_all(d) == Ok::<Seq<EngineValue>, BridgeError>(t)
        },
{
    if decode_all(s) is Ok {
        let d = decode_all(s)->Ok_0;
        assert forall|i: int| 0 <= i < d.len() implies engine_supported(#[trigger] d[i]) by {
            assert(host_supported(s[i]));
        }
        assert(d.map_values(|e: EngineValue| encode_value(e)->Ok_0) =~= s);
    }
    if encode_all(t) is Ok {
        let d = encode_all(t)->Ok_0;
        assert forall|i: int| 0 <= i < d.len() implies host_supported(#[trigger] d[i]) by {
            assert(engine_supported(t[i]));
        }
        assert(d.map_values(|v: Value| decode_value(v)->Ok_0) =~= t);
    }
}

} // verus!
