//! A verified bridge between a host runtime's tagged values and an embedded
//! WebAssembly engine: value and type codecs, import/export assembly, and the
//! lifecycle operations that compile, link and look up functions.
pub mod assembly;
pub mod engine;
pub mod error;
pub mod lifecycle;
pub mod types;
pub mod value;

pub use assembly::{engine_types, exports_from_list, make_imports, register_export_object, signature};
pub use engine::ExternKind;
pub use error::BridgeError;
pub use lifecycle::{
    build_function_from_code, exports, get_function, make_instance, make_module, make_module_from_bytes,
    make_store_default,
};
pub use types::HostType;
pub use value::{check_kinds, decode_callback_results, decode_values, encode_values, EngineValue, Value};
