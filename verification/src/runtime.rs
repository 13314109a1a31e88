//! The boundary to the WebAssembly runtime and to the clock.
//!
//! Nothing in this file is proved. Each item states what the library takes
//! on trust from `wasmtime` or from `std::time`; the rest of the library is
//! verified against these statements alone.

use crate::limiter::SandboxState;
use crate::signature::{kinds_of_types, ValueKind};
use std::time::{Duration, Instant};
use vstd::prelude::*;
use wasmtime::{
    Config, Engine, Error, Func, FuncType, Instance, Module, Store, Trap, Val, ValType,
};

verus! {

/// `wasmtime::Config`: the settings an engine is built from.
#[verifier::external_type_specification]
#[verifier::external_body]
pub struct ExConfig(wasmtime::Config);

/// `wasmtime::Engine`: compiles modules and is shared by the stores made
/// from it.
#[verifier::external_type_specification]
#[verifier::external_body]
pub struct ExEngine(wasmtime::Engine);

/// `wasmtime::Module`: a validated, compiled module.
#[verifier::external_type_specification]
#[verifier::external_body]
pub struct ExModule(wasmtime::Module);

/// `wasmtime::Store`: the collection of the instances of one run, together
/// with the host state `T` and the fuel counter.
#[verifier::external_type_specification]
#[verifier::external_body]
#[verifier::reject_recursive_types(T)]
pub struct ExStore<T: 'static>(wasmtime::Store<T>);

/// `wasmtime::Instance`: a handle to an instantiated module inside a store.
#[verifier::external_type_specification]
#[verifier::external_body]
pub struct ExInstance(wasmtime::Instance);

/// `wasmtime::Func`: a handle to a function inside a store.
#[verifier::external_type_specification]
#[verifier::external_body]
pub struct ExFunc(wasmtime::Func);

/// `wasmtime::FuncType`: the declared type of a function.
#[verifier::external_type_specification]
#[verifier::external_body]
pub struct ExFuncType(wasmtime::FuncType);

/// `wasmtime::ValType`: the type of a WebAssembly value.
#[verifier::external_type_specification]
#[verifier::external_body]
pub struct ExValType(wasmtime::ValType);

/// `wasmtime::Error`, which is `anyhow::Error`: any failure the runtime
/// reports.
#[verifier::external_type_specification]
#[verifier::external_body]
pub struct ExError(wasmtime::Error);

/// `std::time::Instant`: a reading of the monotonic clock.
#[verifier::external_type_specification]
#[verifier::external_body]
pub struct ExInstant(std::time::Instant);

/// Whether the settings ask for fuel metering.
pub uninterp spec fn asks_metering(config: Config) -> bool;

/// Whether an engine meters fuel: whether it was built from settings that
/// ask for it.
pub uninterp spec fn engine_meters(engine: Engine) -> bool;

/// Whether a failure is the trap that the runtime raises when the guest's
/// fuel runs out.
pub uninterp spec fn fuel_trap(failure: Error) -> bool;

/// The identity of a store. Instances and functions belong to the store they
/// were made in, and the runtime panics when one is used with another store.
pub uninterp spec fn store_id(store: Store<SandboxState>) -> int;

/// Whether the engine behind a store was configured to consume fuel, so that
/// guest code running in the store stops once its fuel is used up.
pub uninterp spec fn meters_fuel(store: Store<SandboxState>) -> bool;

/// The identity of the store an instance belongs to.
pub uninterp spec fn instance_home(instance: Instance) -> int;

/// The identity of the store a function belongs to.
pub uninterp spec fn func_home(func: Func) -> int;

/// The kind of value that a `wasmtime::ValType` stands for: the variant it
/// is, whatever a reference type refers to.
pub uninterp spec fn kind_of(ty: ValType) -> ValueKind;

/// The host state that a store holds: the state it was made with, as the
/// answers it has given to growth requests since have left it.
pub uninterp spec fn host_state(store: Store<SandboxState>) -> SandboxState;

/// The fuel left in a store.
pub uninterp spec fn fuel_left(store: Store<SandboxState>) -> u64;

/// The bytes that a module was compiled from.
pub uninterp spec fn source_of(module: Module) -> Seq<u8>;

/// The bytes of the module that an instance was made from.
pub uninterp spec fn instance_source(instance: Instance) -> Seq<u8>;

/// What a module with these bytes declares under an export name: the kinds
/// of the parameters and of the results of the function exported under the
/// name, or nothing where no function is exported under it.
pub uninterp spec fn declared(wasm: Seq<u8>, name: Seq<char>) -> Option<
    (Seq<ValueKind>, Seq<ValueKind>),
>;

/// The declared type of a function.
pub uninterp spec fn type_of(func: Func) -> FuncType;

/// The parameter types of a function type, in order.
pub uninterp spec fn params_of(ty: FuncType) -> Seq<ValType>;

/// The result types of a function type, in order.
pub uninterp spec fn results_of(ty: FuncType) -> Seq<ValType>;

/// `after` is the store `before` at a later time: the same identity, behind
/// the same engine.
pub open spec fn same_store(before: Store<SandboxState>, after: Store<SandboxState>) -> bool {
    store_id(after) == store_id(before) && meters_fuel(after) == meters_fuel(before)
}

/// `after` is the store `before` with its host state and its fuel as they
/// were.
pub open spec fn untouched(before: Store<SandboxState>, after: Store<SandboxState>) -> bool {
    &&& same_store(before, after)
    &&& host_state(after) == host_state(before)
    &&& fuel_left(after) == fuel_left(before)
}

/// `after` is the store `before` after guest code may have run in it: the
/// host state has changed only by answering growth requests, and no fuel has
/// been added.
pub open spec fn after_guest_ran(before: Store<SandboxState>, after: Store<SandboxState>) -> bool {
    &&& same_store(before, after)
    &&& host_state(before).leads_to(host_state(after))
    &&& fuel_left(after) <= fuel_left(before)
}

/// The kinds of the parameters and of the results that a function declares.
pub open spec fn kinds_of_func(func: Func) -> (Seq<ValueKind>, Seq<ValueKind>) {
    (kinds_of_types(params_of(type_of(func))), kinds_of_types(results_of(type_of(func))))
}

/// The kinds that a looked-up function declares, if one was found.
pub open spec fn kinds_found(found: Option<Func>) -> Option<(Seq<ValueKind>, Seq<ValueKind>)> {
    match found {
        Some(func) => Some(kinds_of_func(func)),
        None => None,
    }
}

/// `Config::new`: the default settings. Nothing is claimed of them.
pub assume_specification[ Config::new ]() -> Config;

/// `Config::consume_fuel`: switches fuel metering on or off in the settings,
/// and hands back the reference to them that it was given.
pub assume_specification[ Config::consume_fuel ](config: &mut Config, enable: bool) -> (same:
    &mut Config)
    ensures
        asks_metering(*same) == enable,
        *final(config) == *final(same),
;

/// `Config::memory_reservation`: sets how much address space is set aside
/// for each linear memory up front, leaves fuel metering as it was set, and
/// hands back the reference to the settings that it was given.
pub assume_specification[ Config::memory_reservation ](config: &mut Config, bytes: u64) -> (same:
    &mut Config)
    ensures
        asks_metering(*same) == asks_metering(*old(config)),
        *final(config) == *final(same),
;

/// `Engine::new`: builds an engine from settings, or fails if they are
/// invalid. An engine that comes back meters fuel exactly if the settings
/// ask for it. Whether one comes back is not claimed.
pub assume_specification[ Engine::new ](config: &Config) -> (made: Result<Engine, Error>)
    ensures
        made matches Ok(engine) ==> engine_meters(engine) == asks_metering(*config),
;

/// `Module::new`: decodes, validates and compiles a module given in binary
/// or text form. A module that comes back is the module of these bytes.
/// Whether one comes back is not claimed.
#[verifier::external_body]
pub(crate) fn compile_module(engine: &Engine, wasm: &[u8]) -> (made: Result<Module, Error>)
    ensures
        made matches Ok(module) ==> source_of(module) == wasm@,
{
    Module::new(engine, wasm)
}

/// `Store::new`: a fresh store behind `engine`, which holds `state` as its
/// host state and meters fuel exactly if the engine does.
#[verifier::external_body]
pub(crate) fn new_store(engine: &Engine, state: SandboxState) -> (store: Store<SandboxState>)
    ensures
        host_state(store) == state,
        meters_fuel(store) == engine_meters(*engine),
{
    Store::new(engine, state)
}

/// `Store::limiter`: from now on the runtime asks the store's own
/// `SandboxState` before it grows a memory or a table. The store stays the
/// same store, with its host state and fuel as they were.
#[verifier::external_body]
pub(crate) fn bind_limiter(store: &mut Store<SandboxState>)
    ensures
        untouched(*old(store), *final(store)),
{
    store.limiter(|state| state);
}

/// `Store::set_fuel`: sets the fuel the guest may use. It succeeds exactly
/// when the store's engine consumes fuel, and then that fuel is what is
/// left in the store. The store stays the same store, with its host state
/// as it was.
#[verifier::external_body]
pub(crate) fn seed_fuel(store: &mut Store<SandboxState>, fuel: u64) -> (seeded: Result<(), Error>)
    ensures
        same_store(*old(store), *final(store)),
        host_state(*final(store)) == host_state(*old(store)),
        seeded is Ok <==> meters_fuel(*old(store)),
        seeded is Ok ==> fuel_left(*final(store)) == fuel,
{
    store.set_fuel(fuel)
}

/// `Instance::new` with no imports: instantiates the module in the store and
/// runs its start function, if it has one. An instance that comes back
/// belongs to the store and is an instance of that module. Guest code may
/// run, so the store must meter fuel, or the call might not return; the
/// runtime puts the guest's growth requests to the host state and adds no
/// fuel.
#[verifier::external_body]
pub(crate) fn instantiate(store: &mut Store<SandboxState>, module: &Module) -> (made: Result<
    Instance,
    Error,
>)
    requires
        meters_fuel(*old(store)),
    ensures
        after_guest_ran(*old(store), *final(store)),
        made matches Ok(instance) ==> instance_home(instance) == store_id(*final(store))
            && instance_source(instance) == source_of(*module),
{
    Instance::new(store, module, &[])
}

/// `Instance::get_func`: the exported function of that name, if the instance
/// exports one. The runtime panics unless the instance belongs to the store.
/// A function that comes back belongs to the store, and what was found is
/// what the instance's module declares under the name. The store's host
/// state and fuel stay as they were.
#[verifier::external_body]
pub(crate) fn export_func(instance: &Instance, store: &mut Store<SandboxState>, name: &str) -> (found:
    Option<Func>)
    requires
        instance_home(*instance) == store_id(*old(store)),
    ensures
        untouched(*old(store), *final(store)),
        found matches Some(func) ==> func_home(func) == store_id(*final(store)),
        kinds_found(found) == declared(instance_source(*instance), name@),
{
    instance.get_func(store, name)
}

/// Tells the variants of `wasmtime::ValType` apart: the result is the kind
/// that the type stands for.
#[verifier::external_body]
pub(crate) fn value_kind(ty: &ValType) -> (kind: ValueKind)
    ensures
        kind == kind_of(*ty),
{
    match ty {
        ValType::I32 => ValueKind::I32,
        ValType::I64 => ValueKind::I64,
        ValType::F32 => ValueKind::F32,
        ValType::F64 => ValueKind::F64,
        ValType::V128 => ValueKind::V128,
        ValType::Ref(_) => ValueKind::Ref,
    }
}

/// `Func::ty`: the declared type of the function. The runtime panics unless
/// the function belongs to the store.
#[verifier::external_body]
pub(crate) fn func_type(func: &Func, store: &Store<SandboxState>) -> (ty: FuncType)
    requires
        func_home(*func) == store_id(*store),
    ensures
        ty == type_of(*func),
{
    func.ty(store)
}

/// `FuncType::params`: the types of the parameters, in order.
#[verifier::external_body]
pub(crate) fn param_types(ty: &FuncType) -> (types: Vec<ValType>)
    ensures
        types@ == params_of(*ty),
{
    ty.params().collect()
}

/// `FuncType::results`: the types of the results, in order.
#[verifier::external_body]
pub(crate) fn result_types(ty: &FuncType) -> (types: Vec<ValType>)
    ensures
        types@ == results_of(*ty),
{
    ty.results().collect()
}

/// `Func::call` with 32-bit integer arguments and room for one result, then
/// `Val::i32` on that result: runs the function. `Ok` holds the returned
/// value if it is a 32-bit integer. The runtime panics unless the function
/// belongs to the store; guest code runs, so the store must meter fuel, or
/// the call might not return. The runtime puts the guest's growth requests
/// to the host state and adds no fuel. Nothing is claimed of the result.
#[verifier::external_body]
pub(crate) fn invoke(func: &Func, store: &mut Store<SandboxState>, args: &Vec<i32>) -> (returned:
    Result<Option<i32>, Error>)
    requires
        func_home(*func) == store_id(*old(store)),
        meters_fuel(*old(store)),
    ensures
        after_guest_ran(*old(store), *final(store)),
{
    let params: Vec<Val> = args.iter().map(|arg| Val::I32(*arg)).collect();
    let mut results = [Val::I32(0)];
    func.call(store, &params, &mut results)?;
    Ok(results[0].i32())
}

/// `Error::downcast_ref` to `wasmtime::Trap`: whether the failure is the
/// trap that the runtime raises when fuel runs out.
#[verifier::external_body]
pub(crate) fn ran_out_of_fuel(failure: &Error) -> (out_of_fuel: bool)
    ensures
        out_of_fuel == fuel_trap(*failure),
{
    matches!(failure.downcast_ref::<Trap>(), Some(Trap::OutOfFuel))
}

/// `Store::data`: whether the store's host state has a refused growth
/// request on record.
#[verifier::external_body]
pub(crate) fn growth_denied(store: &Store<SandboxState>) -> (denied: bool)
    ensures
        denied == host_state(*store).growth_denied,
{
    store.data().growth_denied
}

/// `Store::get_fuel`: the fuel left in the store, which the runtime can tell
/// exactly when the store's engine consumes fuel.
#[verifier::external_body]
pub(crate) fn remaining_fuel(store: &Store<SandboxState>) -> (left: Option<u64>)
    ensures
        left is Some <==> meters_fuel(*store),
        left matches Some(fuel) ==> fuel == fuel_left(*store),
{
    store.get_fuel().ok()
}

/// `Instant::now`: the current reading of the monotonic clock. Nothing is
/// claimed of it.
pub assume_specification[ Instant::now ]() -> Instant;

/// `Instant::elapsed`: the time since the reading was taken. Nothing is
/// claimed of it.
pub assume_specification[ Instant::elapsed ](start: &Instant) -> Duration;

/// `Duration::as_nanos`: the duration in whole nanoseconds. Nothing is
/// claimed of it.
pub assume_specification[ Duration::as_nanos ](duration: &Duration) -> u128;

} // verus!
