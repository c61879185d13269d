//! The top-level operations: make a store, compile a module, link an
//! instance, and take functions from its exports.
use vstd::prelude::*;
use crate::engine::{
    compile, compiles, export_functions, export_kinds, singlepass_store, exports_function, instance_export_kinds, instance_exports, instance_functions,
    instantiate, lookup_function, module_imports, new_singlepass_store, supplies,
};
use crate::error::BridgeError;
use vstd::string::StringSliceAdditionalSpecFns;

verus! {

/// Whether the import object supplies every import that the module declares.
pub open spec fn imports_satisfied(io: wasmer::ImportObject, m: wasmer::Module) -> bool {
    forall|i: int| 0 <= i < module_imports(m).len() ==>
        supplies(io, (#[trigger] module_imports(m)[i]).0, module_imports(m)[i].1)
}

/// A store whose engine compiles with the single-pass backend.
pub fn make_store_default() -> (r: wasmer::Store)
    ensures
        singlepass_store(r),
{
    new_singlepass_store()
}

/// Compiles WebAssembly text or binary held in a string; any failure of the
/// engine's compiler is reported as `Compile`.
pub fn make_module(store: &wasmer::Store, code: &str) -> (r: Result<wasmer::Module, BridgeError>)
    requires
        singlepass_store(*store),
    ensures
        r is Ok <==> compiles(*store, code.spec_bytes()),
        r is Err ==> r->Err_0 == BridgeError::Compile,
{
    make_module_from_bytes(store, code.as_bytes())
}

/// Compiles a WebAssembly module from its bytes (binary or text); any
/// failure of the engine's compiler is reported as `Compile`.
pub fn make_module_from_bytes(store: &wasmer::Store, code: &[u8]) -> (r: Result<wasmer::Module, BridgeError>)
    requires
        singlepass_store(*store),
    ensures
        r is Ok <==> compiles(*store, code@),
        r is Err ==> r->Err_0 == BridgeError::Compile,
{
    match compile(store, code) {
        Ok(m) => Ok(m),
        Err(_) => Err(BridgeError::Compile),
    }
}

/// Whether `r` is a possible outcome of linking `m` against `io`: refused
/// with `Link` whenever an import is missing, and never failing otherwise.
pub open spec fn link_outcome(io: wasmer::ImportObject, m: wasmer::Module, r: Result<wasmer::Instance, BridgeError>) -> bool {
    &&& (!imports_satisfied(io, m) ==> r is Err)
    &&& (r is Err ==> r->Err_0 == BridgeError::Link)
}

/// Links a module against an import object. A module that declares an
/// import the object does not supply is refused with `Link`; otherwise the
/// engine decides, and its refusal is `Link` too.
pub fn make_instance(import_object: &wasmer::ImportObject, module: &wasmer::Module) -> (r: Result<wasmer::Instance, BridgeError>)
    ensures
        link_outcome(*import_object, *module, r),
{
    match instantiate(module, import_object) {
        Ok(inst) => Ok(inst),
        Err(_) => Err(BridgeError::Link),
    }
}

/// A copy of an instance's export table.
pub fn exports(instance: &wasmer::Instance) -> (r: wasmer::Exports)
    ensures
        export_kinds(r) == instance_export_kinds(*instance),
        export_functions(r) == instance_functions(*instance),
{
    instance_exports(instance)
}

/// Whether `r` is what looking up `name` in `e` gives: the function bound
/// to the name when `e` binds it to one, and `NotFound` otherwise.
pub open spec fn lookup_outcome(e: wasmer::Exports, name: Seq<char>, r: Result<wasmer::Function, BridgeError>) -> bool {
    &&& (r is Ok <==> exports_function(e, name))
    &&& (r is Ok ==> export_functions(e).contains_key(name) && r->Ok_0 == export_functions(e)[name])
    &&& (r is Err ==> r->Err_0 == BridgeError::NotFound)
}

/// Looks up the function exported under `name`.
pub fn get_function(exports: &wasmer::Exports, name: &str) -> (r: Result<wasmer::Function, BridgeError>)
    ensures
        lookup_outcome(*exports, name@, r),
{
    match lookup_function(exports, name) {
        Ok(f) => Ok(f),
        Err(_) => Err(BridgeError::NotFound),
    }
}

/// Compiles `code` in a fresh store, links it with no imports, and takes the
/// function exported under `function_name`; each step's failure is passed on.
pub fn build_function_from_code(code: String, function_name: String) -> (r: Result<wasmer::Function, BridgeError>)
    ensures
        r is Err ==> (r->Err_0 == BridgeError::Compile || r->Err_0 == BridgeError::Link
            || r->Err_0 == BridgeError::NotFound),
{
    let store = make_store_default();
    let module = make_module(&store, code.as_str())?;
    let imports = crate::assembly::make_imports();
    let instance = make_instance(&imports, &module)?;
    let table = exports(&instance);
    get_function(&table, function_name.as_str())
}

/// Looking a name up twice in one export table gives the same outcome:
/// both calls hand out the one function bound to the name, or both fail
/// with the same error.
pub proof fn lookup_is_stable(
    e: wasmer::Exports,
    name: Seq<char>,
    r1: Result<wasmer::Function, BridgeError>,
    r2: Result<wasmer::Function, BridgeError>,
)
    requires
        lookup_outcome(e, name, r1),
        lookup_outcome(e, name, r2),
    ensures
        r1 is Ok <==> r2 is Ok,
        r1 == r2,
{
}

/// A module is refused whenever it declares an import that the import object
/// lacks: no instance comes out of such a link.
pub proof fn missing_import_refused(
    io: wasmer::ImportObject,
    m: wasmer::Module,
    i: int,
    r: Result<wasmer::Instance, BridgeError>,
)
    requires
        0 <= i < module_imports(m).len(),
        !supplies(io, module_imports(m)[i].0, module_imports(m)[i].1),
        link_outcome(io, m, r),
    ensures
        r is Err && r->Err_0 == BridgeError::Link,
{
}

} // verus!
