//! The type codec: host type descriptors and the engine's value types.
use vstd::prelude::*;

verus! {

/// The engine's value types; a plain enum whose variants verified code reads.
#[verifier::external_type_specification]
pub struct ExEngineType(wasmer::Type);

/// A host-side type descriptor, one tag for each WebAssembly value type.
#[derive(Clone, Copy, Debug, PartialEq, Eq, Structural)]
pub enum HostType {
    I32,
    I64,
    F32,
    F64,
    V128,
    ExternRef,
    FuncRef,
}

/// The engine type that a host descriptor stands for.
pub open spec fn engine_type_of(t: HostType) -> wasmer::Type {
    match t {
        HostType::I32 => wasmer::Type::I32,
        HostType::I64 => wasmer::Type::I64,
        HostType::F32 => wasmer::Type::F32,
        HostType::F64 => wasmer::Type::F64,
        HostType::V128 => wasmer::Type::V128,
        HostType::ExternRef => wasmer::Type::ExternRef,
        HostType::FuncRef => wasmer::Type::FuncRef,
    }
}

/// The host descriptor of an engine type.
pub open spec fn host_type_of(t: wasmer::Type) -> HostType {
    match t {
        wasmer::Type::I32 => HostType::I32,
        wasmer::Type::I64 => HostType::I64,
        wasmer::Type::F32 => HostType::F32,
        wasmer::Type::F64 => HostType::F64,
        wasmer::Type::V128 => HostType::V128,
        wasmer::Type::ExternRef => HostType::ExternRef,
        wasmer::Type::FuncRef => HostType::FuncRef,
    }
}

impl HostType {
    /// Decodes a host descriptor into the engine's type.
    pub fn to_engine(self) -> (r: wasmer::Type)
        ensures
            r == engine_type_of(self),
    {
        match self {
            HostType::I32 => wasmer::Type::I32,
            HostType::I64 => wasmer::Type::I64,
            HostType::F32 => wasmer::Type::F32,
            HostType::F64 => wasmer::Type::F64,
            HostType::V128 => wasmer::Type::V128,
            HostType::ExternRef => wasmer::Type::ExternRef,
            HostType::FuncRef => wasmer::Type::FuncRef,
        }
    }

    /// Encodes an engine type as a host descriptor.
    pub fn from_engine(t: wasmer::Type) -> (r: HostType)
        ensures
            r == host_type_of(t),
    {
        match t {
            wasmer::Type::I32 => HostType::I32,
            wasmer::Type::I64 => HostType::I64,
            wasmer::Type::F32 => HostType::F32,
            wasmer::Type::F64 => HostType::F64,
            wasmer::Type::V128 => HostType::V128,
            wasmer::Type::ExternRef => HostType::ExternRef,
            wasmer::Type::FuncRef => HostType::FuncRef,
        }
    }
}

/// Every host descriptor survives a trip through the engine's type and back,
/// and every engine type survives a trip through its host descriptor.
pub proof fn type_round_trip(t: HostType, e: wasmer::Type)
    ensures
        host_type_of(engine_type_of(t)) == t,
        engine_type_of(host_type_of(e)) == e,
{
}

} // verus!
