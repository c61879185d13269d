//! The engine's objects as this library sees them, and the few engine calls
//! that the bridge's logic makes. Each object is opaque; what the logic needs
//! of an export table, an import object or a module is named below.
use vstd::prelude::*;

verus! {

#[verifier::external_type_specification]
#[verifier::external_body]
pub struct ExStore(wasmer::Store);

#[verifier::external_type_specification]
#[verifier::external_body]
pub struct ExModule(wasmer::Module);

#[verifier::external_type_specification]
#[verifier::external_body]
pub struct ExInstance(wasmer::Instance);

#[verifier::external_type_specification]
#[verifier::external_body]
pub struct ExExports(wasmer::Exports);

#[verifier::external_type_specification]
#[verifier::external_body]
pub struct ExImportObject(wasmer::ImportObject);

#[verifier::external_type_specification]
#[verifier::external_body]
pub struct ExFunction(wasmer::Function);

#[verifier::external_type_specification]
#[verifier::external_body]
pub struct ExFunctionType(wasmer::FunctionType);

#[verifier::external_type_specification]
#[verifier::external_body]
pub struct ExCompileError(wasmer::CompileError);

#[verifier::external_type_specification]
#[verifier::external_body]
pub struct ExInstantiationError(wasmer::InstantiationError);

#[verifier::external_type_specification]
#[verifier::external_body]
pub struct ExExportError(wasmer::ExportError);

/// What an export table binds a name to.
#[derive(Clone, Copy, Debug, PartialEq, Eq, Structural)]
pub enum ExternKind {
    Function,
    Global,
    Table,
    Memory,
}

/// The bindings of an export table: each exported name and the kind of item
/// bound to it.
pub uninterp spec fn export_kinds(e: wasmer::Exports) -> Map<Seq<char>, ExternKind>;

/// The namespaces of an import object: each namespace name and the bindings
/// of the export table registered under it.
pub uninterp spec fn import_namespaces(io: wasmer::ImportObject) -> Map<Seq<char>, Map<Seq<char>, ExternKind>>;

/// The imports that a compiled module declares, in declaration order, each
/// as a namespace name and an item name.
pub uninterp spec fn module_imports(m: wasmer::Module) -> Seq<(Seq<char>, Seq<char>)>;

/// The functions of an export table: each name bound to a function, and
/// that function.
pub uninterp spec fn export_functions(e: wasmer::Exports) -> Map<Seq<char>, wasmer::Function>;

/// Whether store `s` was built by `new_singlepass_store`: single-pass
/// compiler, universal engine, SIMD and multi-value off.
pub uninterp spec fn singlepass_store(s: wasmer::Store) -> bool;

/// Whether the engine of store `s` compiles `code` into a module.
pub uninterp spec fn compiles(s: wasmer::Store, code: Seq<u8>) -> bool;

/// The bindings of an instance's own export table.
pub uninterp spec fn instance_export_kinds(i: wasmer::Instance) -> Map<Seq<char>, ExternKind>;

/// The functions of an instance's own export table, by name.
pub uninterp spec fn instance_functions(i: wasmer::Instance) -> Map<Seq<char>, wasmer::Function>;

/// The functions that each namespace of an import object binds, by
/// namespace and then by name.
pub uninterp spec fn import_functions(io: wasmer::ImportObject) -> Map<Seq<char>, Map<Seq<char>, wasmer::Function>>;

/// The parameter and result types that a signature was built from.
pub uninterp spec fn signature_types(ft: wasmer::FunctionType) -> (Seq<wasmer::Type>, Seq<wasmer::Type>);

/// Whether an import object supplies the item `name` of namespace `ns`.
pub open spec fn supplies(io: wasmer::ImportObject, ns: Seq<char>, name: Seq<char>) -> bool {
    import_namespaces(io).contains_key(ns) && import_namespaces(io)[ns].contains_key(name)
}

/// Whether an export table binds `name` to a function.
pub open spec fn exports_function(e: wasmer::Exports, name: Seq<char>) -> bool {
    export_kinds(e).contains_key(name) && export_kinds(e)[name] == ExternKind::Function
}

/// Relies on `Singlepass::default`, `Universal::new(..).features(..).engine()`
/// and `Store::new`: a store whose engine compiles with the single-pass
/// backend. SIMD is off, so modules with `v128` fail validation instead of
/// reaching the backend's unimplemented paths; multi-value is off, as the
/// backend's own default has it.
#[verifier::external_body]
pub(crate) fn new_singlepass_store() -> (r: wasmer::Store)
    ensures
        singlepass_store(r),
{
    let compiler = wasmer_compiler_singlepass::Singlepass::default();
    let mut features = wasmer::Features::default();
    features.simd(false).multi_value(false);
    let engine = wasmer_engine_universal::Universal::new(compiler).features(features).engine();
    wasmer::Store::new(&engine)
}

/// Relies on `Module::new`: compiles WebAssembly binary or text, or fails
/// with a compile error; which of the two depends on the store and the bytes.
#[verifier::external_body]
pub(crate) fn compile(store: &wasmer::Store, code: &[u8]) -> (r: Result<wasmer::Module, wasmer::CompileError>)
    requires
        singlepass_store(*store),
    ensures
        r is Ok <==> compiles(*store, code@),
{
    wasmer::Module::new(store, code)
}

/// Relies on `Instance::new`: links a module against an import object. Its
/// resolver refuses any declared import that `ImportObject::get_export` does
/// not find; past that, the engine decides whether linking succeeds.
#[verifier::external_body]
pub(crate) fn instantiate(m: &wasmer::Module, io: &wasmer::ImportObject) -> (r: Result<wasmer::Instance, wasmer::InstantiationError>)
    ensures
        r is Ok ==> forall|i: int| 0 <= i < module_imports(*m).len() ==>
            supplies(*io, (#[trigger] module_imports(*m)[i]).0, module_imports(*m)[i].1),
{
    wasmer::Instance::new(m, io)
}

/// Relies on the public field `Instance::exports` and its `Clone`: a copy of
/// the instance's export table.
#[verifier::external_body]
pub(crate) fn instance_exports(i: &wasmer::Instance) -> (r: wasmer::Exports)
    ensures
        export_kinds(r) == instance_export_kinds(*i),
        export_functions(r) == instance_functions(*i),
{
    i.exports.clone()
}

/// Relies on `Exports::new`: an empty export table.
#[verifier::external_body]
pub(crate) fn new_exports() -> (r: wasmer::Exports)
    ensures
        export_kinds(r) =~= Map::empty(),
        export_functions(r) =~= Map::empty(),
{
    wasmer::Exports::new()
}

/// Relies on `Exports::insert`: binds the name to the function, replacing an
/// earlier binding of that name.
#[verifier::external_body]
pub(crate) fn insert_function(e: &mut wasmer::Exports, name: String, f: wasmer::Function)
    ensures
        export_kinds(*final(e)) == export_kinds(*old(e)).insert(name@, ExternKind::Function),
        export_functions(*final(e)) == export_functions(*old(e)).insert(name@, f),
{
    e.insert(name, f)
}

/// Relies on `Exports::get_function` and `Function`'s `Clone`: succeeds
/// exactly when the name is bound to a function, and hands out a handle to
/// that same function.
#[verifier::external_body]
pub(crate) fn lookup_function(e: &wasmer::Exports, name: &str) -> (r: Result<wasmer::Function, wasmer::ExportError>)
    ensures
        r is Ok <==> exports_function(*e, name@),
        r is Ok ==> export_functions(*e).contains_key(name@) && r->Ok_0 == export_functions(*e)[name@],
{
    e.get_function(name).map(|f| f.clone())
}

/// Relies on `ImportObject::new`: an import object with no namespaces.
#[verifier::external_body]
pub(crate) fn new_import_object() -> (r: wasmer::ImportObject)
    ensures
        import_namespaces(r) =~= Map::empty(),
        import_functions(r) =~= Map::empty(),
{
    wasmer::ImportObject::new()
}

/// Relies on `ImportObject::register` and `Exports`'s `Clone`: binds a copy
/// of the export table under the namespace, replacing an earlier binding.
#[verifier::external_body]
pub(crate) fn register_namespace(io: &mut wasmer::ImportObject, name: String, e: &wasmer::Exports)
    ensures
        import_namespaces(*final(io)) == import_namespaces(*old(io)).insert(name@, export_kinds(*e)),
        import_functions(*final(io)) == import_functions(*old(io)).insert(name@, export_functions(*e)),
{
    io.register(name, e.clone());
}

/// Relies on `FunctionType::new`: a signature that keeps the parameter and
/// result types as given.
#[verifier::external_body]
pub(crate) fn new_function_type(params: Vec<wasmer::Type>, results: Vec<wasmer::Type>) -> (r: wasmer::FunctionType)
    ensures
        signature_types(r) == (params@, results@),
{
    wasmer::FunctionType::new(params, results)
}

} // verus!
