//! Assembling export tables and import objects, and building the signatures
//! of host functions.
use vstd::prelude::*;
use crate::engine::{
    export_functions, export_kinds, import_functions, import_namespaces, insert_function, new_exports, new_function_type,
    new_import_object, signature_types, supplies, ExternKind,
};
use crate::types::{engine_type_of, HostType};

verus! {

/// The bindings of a table built from the given names, each bound to a function.
pub open spec fn function_table(names: Seq<Seq<char>>) -> Map<Seq<char>, ExternKind> {
    Map::new(|n: Seq<char>| names.contains(n), |n: Seq<char>| ExternKind::Function)
}

/// The functions that a list of pairs binds when inserted in order: each
/// name to the function of its last pair.
pub open spec fn last_bindings(s: Seq<(String, wasmer::Function)>) -> Map<Seq<char>, wasmer::Function>
    decreases s.len(),
{
    if s.len() == 0 {
        Map::empty()
    } else {
        last_bindings(s.drop_last()).insert(s.last().0@, s.last().1)
    }
}

/// Whether `after` is `before` with the table `e` registered under `name`.
pub open spec fn registered(
    before: wasmer::ImportObject,
    name: Seq<char>,
    e: wasmer::Exports,
    after: wasmer::ImportObject,
) -> bool {
    &&& import_namespaces(after) == import_namespaces(before).insert(name, export_kinds(e))
    &&& import_functions(after) == import_functions(before).insert(name, export_functions(e))
}

/// An import object with no namespaces.
pub fn make_imports() -> (r: wasmer::ImportObject)
    ensures
        import_namespaces(r) =~= Map::empty(),
        import_functions(r) =~= Map::empty(),
{
    new_import_object()
}

/// Registers a copy of an export table under a namespace name, replacing
/// whatever that name was bound to; other namespaces are left as they were.
pub fn register_export_object(imports: &mut wasmer::ImportObject, name: String, exports: &wasmer::Exports)
    ensures
        registered(*old(imports), name@, *exports, *final(imports)),
{
    crate::engine::register_namespace(imports, name, exports);
}

/// Builds an export table from (name, function) pairs, in order; a later
/// pair wins over an earlier one of the same name.
pub fn exports_from_list(exports_list: Vec<(String, wasmer::Function)>) -> (r: wasmer::Exports)
    ensures
        export_kinds(r) =~= function_table(exports_list@.map_values(|p: (String, wasmer::Function)| p.0@)),
        export_functions(r) == last_bindings(exports_list@),
{
    let ghost names = exports_list@.map_values(|p: (String, wasmer::Function)| p.0@);
    let ghost pairs = exports_list@;
    let mut table = new_exports();
    let mut list = exports_list;
    let ghost total = list@.len();
    proof {
        assert(export_kinds(table) =~= function_table(names.take(0)));
        assert(pairs.take(0) =~= Seq::<(String, wasmer::Function)>::empty());
        assert(export_functions(table) =~= last_bindings(pairs.take(0)));
    }
    while list.len() > 0
        invariant
            list@.len() <= total,
            total == names.len(),
            forall|k: int| 0 <= k < list@.len() ==> (#[trigger] list@[k]).0@ == names[total - list@.len() + k],
            forall|k: int| 0 <= k < list@.len() ==> #[trigger] list@[k] == pairs[total - list@.len() + k],
            pairs.len() == total,
            export_kinds(table) =~= function_table(names.take(total - list@.len())),
            export_functions(table) == last_bindings(pairs.take(total - list@.len())),
        decreases list@.len(),
    {
        let ghost done = total - list@.len();
        let (name, f) = list.remove(0);
        assert(name@ == names[done]);
        assert((name, f) == pairs[done]);
        assert(pairs.take(done + 1).drop_last() =~= pairs.take(done));
        insert_function(&mut table, name, f);
        proof {
            let before = names.take(done);
            let after = names.take(done + 1);
            assert(after =~= before.push(names[done]));
            assert forall|n: Seq<char>| after.contains(n) <==> (before.contains(n) || n == names[done]) by {
                if after.contains(n) {
                    let j = choose|j: int| 0 <= j < after.len() && after[j] == n;
                    if j < before.len() {
                        assert(before[j] == n);
                    }
                }
                if before.contains(n) {
                    let j = choose|j: int| 0 <= j < before.len() && before[j] == n;
                    assert(after[j] == n);
                }
                if n == names[done] {
                    assert(after[done] == n);
                }
            }
            assert(export_kinds(table) =~= function_table(after));
        }
    }
    assert(names.take(total as int) =~= names);
    assert(pairs.take(total as int) =~= pairs);
    table
}

/// The engine types of a sequence of host descriptors, in order.
pub fn engine_types(ts: &Vec<HostType>) -> (r: Vec<wasmer::Type>)
    ensures
        r@ == ts@.map_values(|t: HostType| engine_type_of(t)),
{
    let mut out: Vec<wasmer::Type> = Vec::new();
    let mut i: usize = 0;
    while i < ts.len()
        invariant
            i <= ts@.len(),
            out@ =~= ts@.take(i as int).map_values(|t: HostType| engine_type_of(t)),
        decreases ts@.len() - i,
    {
        out.push(ts[i].to_engine());
        i = i + 1;
        assert(ts@.take(i as int) =~= ts@.take(i - 1).push(ts@[i - 1]));
    }
    assert(ts@.take(ts@.len() as int) =~= ts@);
    out
}

/// The engine signature of a host function with the given parameter and
/// result descriptors, order kept.
pub fn signature(params: &Vec<HostType>, results: &Vec<HostType>) -> (r: wasmer::FunctionType)
    ensures
        signature_types(r).0 == params@.map_values(|t: HostType| engine_type_of(t)),
        signature_types(r).1 == results@.map_values(|t: HostType| engine_type_of(t)),
{
    new_function_type(engine_types(params), engine_types(results))
}

/// Two tables registered under two distinct names stay apart: each name
/// supplies exactly what its own table binds, each of its functions is the
/// one its own table holds, and no other namespace changes.
pub proof fn distinct_namespaces_independent(
    io0: wasmer::ImportObject,
    io1: wasmer::ImportObject,
    io2: wasmer::ImportObject,
    n1: Seq<char>,
    e1: wasmer::Exports,
    n2: Seq<char>,
    e2: wasmer::Exports,
    item: Seq<char>,
    other: Seq<char>,
)
    requires
        n1 != n2,
        registered(io0, n1, e1, io1),
        registered(io1, n2, e2, io2),
    ensures
        supplies(io2, n1, item) == export_kinds(e1).contains_key(item),
        supplies(io2, n2, item) == export_kinds(e2).contains_key(item),
        import_namespaces(io2)[n1] == export_kinds(e1),
        import_namespaces(io2)[n2] == export_kinds(e2),
        import_functions(io2)[n1] == export_functions(e1),
        import_functions(io2)[n2] == export_functions(e2),
        other != n1 && other != n2 ==> supplies(io2, other, item) == supplies(io0, other, item),
{
}

} // verus!
