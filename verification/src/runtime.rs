//! The WebAssembly runtime, as far as the pipeline uses it. Everything in
//! this file is taken on trust and nothing in it is proved: the types are
//! opaque, the spec functions without a body name what the runtime holds,
//! and the contracts of the functions state what the runtime's
//! documentation and source promise. Each function makes one call into the
//! runtime and decides nothing.

use vstd::prelude::*;
use wasmtime::{Engine, Error, Extern, ExternType, Func, Instance, Module, Store, Trap, TypedFunc, ValType};
use crate::host::HostFunction;
use crate::shape::{ImportView, ItemShape, ItemShapeView, Signature, ValueKind};

verus! {

/// The runtime's engine: settings and compiled-code state that invocations
/// share. It is only read.
#[verifier::external_type_specification]
#[verifier::external_body]
pub struct ExEngine(wasmtime::Engine);

/// A module that the runtime has validated and compiled.
#[verifier::external_type_specification]
#[verifier::external_body]
pub struct ExModule(wasmtime::Module);

/// The runtime's error.
#[verifier::external_type_specification]
#[verifier::external_body]
pub struct ExError(wasmtime::Error);

/// The runtime's store: the memory and bookkeeping of the instances made in
/// it. One invocation has one store.
#[verifier::external_type_specification]
#[verifier::external_body]
#[verifier::reject_recursive_types(T)]
pub struct ExStore<T: 'static>(wasmtime::Store<T>);

/// An instance of a module, living in a store.
#[verifier::external_type_specification]
#[verifier::external_body]
pub struct ExInstance(wasmtime::Instance);

/// An item that can be handed to a module as an import.
#[verifier::external_type_specification]
#[verifier::external_body]
pub struct ExExtern(wasmtime::Extern);

/// The runtime's description of an importable or exportable item.
#[verifier::external_type_specification]
#[verifier::external_body]
pub struct ExExternType(wasmtime::ExternType);

/// A function of an instance, with its parameter and result types checked.
#[verifier::external_type_specification]
#[verifier::external_body]
#[verifier::reject_recursive_types(Params)]
#[verifier::reject_recursive_types(Results)]
pub struct ExTypedFunc<Params, Results>(wasmtime::TypedFunc<Params, Results>);

/// The imports that a compiled module declares, in the module's order:
/// what `Module::imports` lists.
pub uninterp spec fn declared_imports(module: Module) -> Seq<ImportView>;

/// The shape of what a compiled module exports under a name, if anything:
/// what `Module::get_export` finds.
pub uninterp spec fn declared_export(module: Module, name: Seq<char>) -> Option<ItemShapeView>;

/// The shape of an item that the runtime describes: which variant of
/// `ExternType` it is and, for a function, its parameters and results.
pub uninterp spec fn extern_shape(item: ExternType) -> ItemShapeView;

/// Which store this is. The runtime gives each store an identity when it
/// makes it, and marks with it whatever is made in the store; it panics
/// where an instance or a function is used with a store that is not its own.
pub uninterp spec fn store_ident(store: Store<()>) -> int;

/// The identity of the store in which an instance was made.
pub uninterp spec fn instance_home(instance: Instance) -> int;

/// The identity of the store in which a typed function lives.
pub uninterp spec fn entry_home(entry: TypedFunc<(), i32>) -> int;

/// `Module::from_binary`: validates and compiles a binary module. Nothing
/// is claimed of the result.
#[verifier::external_body]
pub(crate) fn compile(engine: &Engine, bytes: &[u8]) -> (r: Result<Module, Error>) {
    Module::from_binary(engine, bytes)
}

/// `Error::root_cause`, as text: what the innermost error displays. Nothing
/// is claimed of the text.
#[verifier::external_body]
pub(crate) fn cause_text(error: &Error) -> (r: String) {
    error.root_cause().to_string()
}

/// `Error::is::<Trap>`: whether a trap is among the error and its causes.
/// Nothing is claimed of the answer.
#[verifier::external_body]
pub(crate) fn is_trap(error: &Error) -> (r: bool) {
    error.is::<Trap>()
}

/// `Module::imports`: for each import that the module declares, in the
/// module's order, its namespace, its name and the runtime's description of
/// the item.
#[verifier::external_body]
pub(crate) fn module_imports(module: &Module) -> (r: Vec<(String, String, ExternType)>)
    ensures
        r@.len() == declared_imports(*module).len(),
        forall|i: int|
            0 <= i < r@.len() ==> {
                &&& (#[trigger] r@[i]).0@ == declared_imports(*module)[i].namespace
                &&& r@[i].1@ == declared_imports(*module)[i].name
                &&& extern_shape(r@[i].2) == declared_imports(*module)[i].item
            },
{
    module.imports().map(|i| (i.module().to_string(), i.name().to_string(), i.ty())).collect()
}

/// `Module::get_export`: the runtime's description of what the module
/// exports under a name, or nothing where it exports nothing under it.
#[verifier::external_body]
pub(crate) fn module_export(module: &Module, name: &str) -> (r: Option<ExternType>)
    ensures
        match r {
            Some(item) => declared_export(*module, name@) == Some(extern_shape(item)),
            None => declared_export(*module, name@) is None,
        },
{
    module.get_export(name)
}

/// Reads the runtime's description of an item into a shape: which of the
/// five kinds of item it is and, for a function, the kinds of the values
/// that `FuncType::params` and `FuncType::results` list.
#[verifier::external_body]
pub(crate) fn describe(item: &ExternType) -> (r: ItemShape)
    ensures
        r@ == extern_shape(*item),
{
    let kind = |v: ValType| match v {
        ValType::I32 => ValueKind::I32,
        ValType::I64 => ValueKind::I64,
        ValType::F32 => ValueKind::F32,
        ValType::F64 => ValueKind::F64,
        ValType::V128 => ValueKind::V128,
        ValType::Ref(_) => ValueKind::Ref,
    };
    match item {
        ExternType::Func(f) => ItemShape::Func(Signature { params: f.params().map(kind).collect(), results: f.results().map(kind).collect() }),
        ExternType::Global(_) => ItemShape::Global,
        ExternType::Table(_) => ItemShape::Table,
        ExternType::Memory(_) => ItemShape::Memory,
        ExternType::Tag(_) => ItemShape::Tag,
    }
}

/// `Store::try_new`: a fresh store, or the runtime's error where it cannot
/// allocate one. Nothing is claimed of the result.
#[verifier::external_body]
pub(crate) fn new_store(engine: &Engine) -> (r: Result<Store<()>, Error>) {
    Store::try_new(engine, ())
}

/// `Func::try_wrap`: makes, in the store, a function that guest code can
/// import; when called it runs the host function on the arguments. The store
/// stays the store it was.
#[verifier::external_body]
pub(crate) fn host_func(store: &mut Store<()>, function: HostFunction) -> (r: Result<Extern, Error>)
    ensures
        store_ident(*final(store)) == store_ident(*old(store)),
{
    Func::try_wrap(store, move |a: i32, b: i32| function.call(a, b)).map(Extern::from)
}

/// `Instance::new`: instantiates the module in the store with the imports
/// given in the module's order, and runs the module's start function if it
/// has one; it returns when that function does. Imports that are too many,
/// too few, of another type or of another store are answered with an error.
/// An instance that comes back lives in the store, and the store stays the
/// store it was.
#[verifier::external_body]
pub(crate) fn instantiate(store: &mut Store<()>, module: &Module, imports: &Vec<Extern>) -> (r:
    Result<Instance, Error>)
    ensures
        store_ident(*final(store)) == store_ident(*old(store)),
        r is Ok ==> instance_home(r->Ok_0) == store_ident(*old(store)),
{
    Instance::new(store, module, imports)
}

/// `Instance::get_typed_func`: the instance's export under a name, as a
/// function from nothing to one 32-bit integer. The runtime panics where the
/// instance does not live in the store, so that is required. A function
/// that comes back lives in the store, and the store stays the store it was.
#[verifier::external_body]
pub(crate) fn typed_entry(store: &mut Store<()>, instance: &Instance, name: &str) -> (r: Result<
    TypedFunc<(), i32>,
    Error,
>)
    requires
        instance_home(*instance) == store_ident(*old(store)),
    ensures
        store_ident(*final(store)) == store_ident(*old(store)),
        r is Ok ==> entry_home(r->Ok_0) == store_ident(*old(store)),
{
    instance.get_typed_func::<(), i32>(store, name)
}

/// `TypedFunc::call`: runs the function once, in the store, which is used
/// up by the call. The runtime panics where the function does not live in
/// the store, so that is required. The call returns when the guest code
/// does: the runtime sets no limit of its own. Nothing is claimed of the
/// result.
#[verifier::external_body]
pub(crate) fn call_entry(store: Store<()>, entry: &TypedFunc<(), i32>) -> (r: Result<i32, Error>)
    requires
        entry_home(*entry) == store_ident(store),
{
    let mut store = store;
    entry.call(&mut store, ())
}

} // verus!
