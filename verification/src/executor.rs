//! The steps of one invocation, in order.
//!
//! An invocation starts as a request and moves forward only:
//!
//! * created: the request is all there is;
//! * compiled: `compile` has made a `CompiledModule`, and
//!   `CompiledModule::context` a `FreshContext` for the run;
//! * instantiated: `FreshContext::instantiate` has made an
//!   `ExecutionContext`, and `ExecutionContext::resolve` a `ResolvedCall`;
//! * running: `ResolvedCall::invoke` is inside the guest, and leaves a
//!   `FinishedCall`;
//! * completed with an `ExectionReport`, or faulted with a `SandboxError`:
//!   `FinishedCall::report` says which.
//!
//! Every step on a context uses up the value it starts from, so no step is
//! taken twice or backwards and no context serves two invocations.
//! A compiled module is never changed and may start any number of runs.
//! A step that fails says so at once; no report is made of a failed run.

use crate::error::SandboxError;
use crate::limiter::{
    lemma_ceiling_is_fixed, lemma_later_state_keeps_ceiling_and_refusal,
    lemma_refusals_are_remembered, GrowthRequest, SandboxState,
};
use crate::report::{settle, settled, CallOutcome, ExectionReport};
use crate::runtime::{
    bind_limiter, compile_module, declared, engine_meters, export_func, fuel_left, fuel_trap,
    func_home, func_type, growth_denied, host_state, instance_home, instance_source, instantiate,
    invoke, meters_fuel, new_store, param_types, ran_out_of_fuel, remaining_fuel, result_types,
    seed_fuel, source_of, store_id,
};
use crate::signature::{resolution, resolve_export, Signature, ValueKind};
use std::time::Instant;
use vstd::prelude::*;
use wasmtime::{Config, Engine, Error, Func, Instance, Module, Store};

verus! {

/// One invocation, as the command line or any other caller asks for it.
#[derive(Debug)]
pub struct InvocationRequest {
    /// Where the module was read from.
    pub module_file: String,
    /// Name of the exported function to call.
    pub function_name: String,
    /// The arguments, in order.
    pub args: Vec<i32>,
    /// Ceiling on guest linear memory, in bytes.
    pub memory_limit_bytes: usize,
    /// Fuel the guest may use.
    pub fuel_budget: u64,
}

/// A module that has been validated and compiled, with the engine that
/// compiled it. It is never changed, and any number of runs may be started
/// from it.
pub struct CompiledModule {
    engine: Engine,
    module: Module,
}

/// The state a run starts from: a store of its own that meters fuel, holds
/// the run's `SandboxState`, which the runtime asks before any memory or
/// table grows, and holds the run's fuel. Nothing has run in it yet.
pub struct FreshContext {
    store: Store<SandboxState>,
    memory_limit: usize,
    fuel_budget: u64,
}

/// The state of one run: the instantiated module inside its own store,
/// which meters fuel and asks the run's `SandboxState` before any memory or
/// table grows. It is made for one invocation and used up by it.
pub struct ExecutionContext {
    store: Store<SandboxState>,
    instance: Instance,
    memory_limit: usize,
    fuel_budget: u64,
}

/// An execution context in which the function to call has been found and
/// its signature checked against the arguments. Calling it uses it up.
pub struct ResolvedCall {
    store: Store<SandboxState>,
    func: Func,
    args: Vec<i32>,
    memory_limit: usize,
    fuel_budget: u64,
}

/// A call that has ended: the store as the call left it, what the runtime
/// handed back, and the time the call took. It waits to be reported on,
/// which uses it up.
pub struct FinishedCall {
    store: Store<SandboxState>,
    returned: Result<Option<i32>, Error>,
    nanos: u128,
    memory_limit: usize,
    fuel_budget: u64,
}

/// What becomes of an instantiation that ended as `made`, where a failure
/// is told by whether the fuel ran out, and after which a growth request is
/// on record as refused or not. A refusal is a breach of the resource
/// limits whatever else happened, even if the instance was made; a start
/// function that used up the fuel is `FuelExhausted`; any other failure is
/// a failure to instantiate.
pub open spec fn instantiation_result<T>(made: Result<T, bool>, growth_denied: bool) -> Result<
    T,
    SandboxError,
> {
    if growth_denied {
        Err(SandboxError::ResourceLimitExceeded)
    } else {
        match made {
            Ok(instance) => Ok(instance),
            Err(out_of_fuel) => if out_of_fuel {
                Err(SandboxError::FuelExhausted)
            } else {
                Err(SandboxError::Instantiation)
            },
        }
    }
}

/// How a call ended that the runtime reports as `returned`: a returned
/// value is a return, the trap for want of fuel is `OutOfFuel`, and any
/// other failure is `Trapped`.
pub open spec fn classified(returned: Result<Option<i32>, Error>) -> CallOutcome {
    match returned {
        Ok(value) => CallOutcome::Returned(value),
        Err(failure) => if fuel_trap(failure) {
            CallOutcome::OutOfFuel
        } else {
            CallOutcome::Trapped
        },
    }
}

/// Whether `fault` can be the failure of a run whose export resolves as
/// `resolved`. The steps are taken in order: a run fails with
/// `FunctionNotFound` or `SignatureMismatch` only as the resolution says,
/// and with `GuestTrap` or `ResultType` only once the export has resolved.
/// The other failures can come before the export is looked at.
pub open spec fn fault_fits(fault: SandboxError, resolved: Result<(), SandboxError>) -> bool {
    match fault {
        SandboxError::FunctionNotFound | SandboxError::SignatureMismatch => resolved == Err::<
            (),
            SandboxError,
        >(fault),
        SandboxError::GuestTrap | SandboxError::ResultType => resolved is Ok,
        SandboxError::ModuleLoad
        | SandboxError::Instantiation
        | SandboxError::ResourceLimitExceeded
        | SandboxError::FuelExhausted => true,
    }
}

/// Decides what becomes of an instantiation from what the runtime reported
/// of it.
pub fn instantiation_outcome<T>(made: Result<T, bool>, growth_denied: bool) -> (outcome: Result<
    T,
    SandboxError,
>)
    ensures
        outcome == instantiation_result(made, growth_denied),
{
    if growth_denied {
        return Err(SandboxError::ResourceLimitExceeded);
    }
    match made {
        Ok(instance) => Ok(instance),
        Err(out_of_fuel) => if out_of_fuel {
            Err(SandboxError::FuelExhausted)
        } else {
            Err(SandboxError::Instantiation)
        },
    }
}

/// Tells how a call ended from what the runtime handed back.
pub fn classify(returned: &Result<Option<i32>, Error>) -> (call: CallOutcome)
    ensures
        call == classified(*returned),
{
    match returned {
        Ok(value) => CallOutcome::Returned(*value),
        Err(failure) => if ran_out_of_fuel(failure) {
            CallOutcome::OutOfFuel
        } else {
            CallOutcome::Trapped
        },
    }
}

/// Compiles a module, given in binary or text form, for an engine that
/// meters fuel. A module that comes back is the module of these bytes; the
/// only failure is `ModuleLoad`.
///
/// The engine sets no address space aside for linear memories up front, so
/// that a module with a memory can run where address space is scarce.
pub fn compile(wasm: &[u8]) -> (compiled: Result<CompiledModule, SandboxError>)
    ensures
        compiled matches Ok(module) ==> module.source() == wasm@,
        compiled matches Err(fault) ==> fault == SandboxError::ModuleLoad,
{
    let mut config = Config::new();
    config.consume_fuel(true);
    config.memory_reservation(0);
    let engine = match Engine::new(&config) {
        Ok(engine) => engine,
        Err(_) => {
            return Err(SandboxError::ModuleLoad);
        },
    };
    match compile_module(&engine, wasm) {
        Ok(module) => Ok(CompiledModule { engine, module }),
        Err(_) => Err(SandboxError::ModuleLoad),
    }
}

impl CompiledModule {
    #[verifier::type_invariant]
    spec fn well_formed(self) -> bool {
        engine_meters(self.engine)
    }

    /// The bytes the module was compiled from.
    pub closed spec fn source(self) -> Seq<u8> {
        source_of(self.module)
    }

    /// Makes the context of a run: a fresh store behind the module's engine,
    /// whose host state is `SandboxState::fresh(mem_limit)` and which is
    /// seeded with exactly `fuel_limit` units of fuel. It cannot fail: the
    /// engine meters fuel, so the runtime takes the fuel.
    pub fn context(&self, mem_limit: usize, fuel_limit: u64) -> (context: FreshContext)
        ensures
            context.memory_limit() == mem_limit,
            context.fuel_budget() == fuel_limit,
            context.state() == SandboxState::fresh(mem_limit),
            context.fuel_left() == fuel_limit,
    {
        proof {
            use_type_invariant(self);
        }
        let mut store = new_store(&self.engine, SandboxState::new(mem_limit));
        bind_limiter(&mut store);
        let _ = seed_fuel(&mut store, fuel_limit);
        FreshContext { store, memory_limit: mem_limit, fuel_budget: fuel_limit }
    }
}

impl FreshContext {
    #[verifier::type_invariant]
    spec fn well_formed(self) -> bool {
        &&& meters_fuel(self.store)
        &&& host_state(self.store).max_memory_bytes == self.memory_limit
        &&& fuel_left(self.store) <= self.fuel_budget
    }

    /// The memory ceiling of the run, in bytes.
    pub closed spec fn memory_limit(self) -> usize {
        self.memory_limit
    }

    /// The fuel the run was given.
    pub closed spec fn fuel_budget(self) -> u64 {
        self.fuel_budget
    }

    /// The fuel the run has left.
    pub closed spec fn fuel_left(self) -> u64 {
        fuel_left(self.store)
    }

    /// The host state of the run: its ceiling, and whether a growth request
    /// has been refused so far.
    pub closed spec fn state(self) -> SandboxState {
        host_state(self.store)
    }

    /// Instantiates `module` in the context, with no imports.
    ///
    /// The context that comes back is of that module. Its host state is what
    /// the state has become by answering the growth requests of the
    /// instantiation, none of which was refused; and it has no more fuel
    /// left than there was.
    ///
    /// It fails with `ResourceLimitExceeded` if a growth request has been
    /// refused, even where the module was instantiated all the same; with
    /// `FuelExhausted` if the start function used up the fuel; and with
    /// `Instantiation` otherwise.
    pub fn instantiate(self, module: &CompiledModule) -> (started: Result<
        ExecutionContext,
        SandboxError,
    >)
        ensures
            started matches Ok(context) ==> context.memory_limit() == self.memory_limit()
                && context.fuel_budget() == self.fuel_budget() && context.source()
                == module.source(),
            started matches Ok(context) ==> self.state().leads_to(context.state())
                && !context.state().growth_denied && context.fuel_left() <= self.fuel_left(),
            started matches Err(fault) ==> fault == SandboxError::Instantiation || fault
                == SandboxError::ResourceLimitExceeded || fault == SandboxError::FuelExhausted,
    {
        proof {
            use_type_invariant(&self);
        }
        let FreshContext { mut store, memory_limit, fuel_budget } = self;
        let ghost before = host_state(store);
        let made = match instantiate(&mut store, &module.module) {
            Ok(instance) => Ok(instance),
            Err(failure) => Err(ran_out_of_fuel(&failure)),
        };
        proof {
            lemma_later_state_keeps_ceiling_and_refusal(before, host_state(store));
        }
        match instantiation_outcome(made, growth_denied(&store)) {
            Ok(instance) => Ok(ExecutionContext { store, instance, memory_limit, fuel_budget }),
            Err(fault) => Err(fault),
        }
    }
}

impl ExecutionContext {
    #[verifier::type_invariant]
    spec fn well_formed(self) -> bool {
        &&& meters_fuel(self.store)
        &&& instance_home(self.instance) == store_id(self.store)
        &&& host_state(self.store).max_memory_bytes == self.memory_limit
        &&& !host_state(self.store).growth_denied
        &&& fuel_left(self.store) <= self.fuel_budget
    }

    /// The memory ceiling of the run, in bytes.
    pub closed spec fn memory_limit(self) -> usize {
        self.memory_limit
    }

    /// The fuel the run was given.
    pub closed spec fn fuel_budget(self) -> u64 {
        self.fuel_budget
    }

    /// The fuel the run has left.
    pub closed spec fn fuel_left(self) -> u64 {
        fuel_left(self.store)
    }

    /// The host state of the run: its ceiling, and whether a growth request
    /// has been refused so far.
    pub closed spec fn state(self) -> SandboxState {
        host_state(self.store)
    }

    /// The bytes of the module that was instantiated.
    pub closed spec fn source(self) -> Seq<u8> {
        instance_source(self.instance)
    }

    /// What the instantiated module declares under the export name `name`:
    /// the kinds of the parameters and results of the function exported
    /// under it, or nothing where no function is.
    pub closed spec fn export_kinds(self, name: Seq<char>) -> Option<
        (Seq<ValueKind>, Seq<ValueKind>),
    > {
        declared(instance_source(self.instance), name)
    }

    /// Looks up the exported function `func_name` and checks that it can be
    /// called with `args` for one 32-bit integer. It fails with
    /// `FunctionNotFound` exactly when the module exports no function under
    /// the name, and with `SignatureMismatch` exactly when it does and the
    /// function's signature does not fit; otherwise the call is resolved,
    /// in the same state and with the same fuel left.
    pub fn resolve(self, func_name: &str, args: Vec<i32>) -> (resolved: Result<
        ResolvedCall,
        SandboxError,
    >)
        ensures
            resolved is Ok <==> resolution(self.export_kinds(func_name@), args.len() as nat) is Ok,
            resolved matches Err(fault) ==> resolution(
                self.export_kinds(func_name@),
                args.len() as nat,
            ) == Err::<(), SandboxError>(fault),
            resolved matches Ok(call) ==> call.memory_limit() == self.memory_limit()
                && call.fuel_budget() == self.fuel_budget() && call.args() == args,
            resolved matches Ok(call) ==> call.state() == self.state() && call.fuel_left()
                == self.fuel_left(),
    {
        proof {
            use_type_invariant(&self);
        }
        let ExecutionContext { mut store, instance, memory_limit, fuel_budget } = self;
        let export = match export_func(&instance, &mut store, func_name) {
            Some(func) => {
                let ty = func_type(&func, &store);
                let signature = Signature::from_types(&param_types(&ty), &result_types(&ty));
                Some((func, signature))
            },
            None => None,
        };
        match resolve_export(export, args.len()) {
            Ok(func) => Ok(ResolvedCall { store, func, args, memory_limit, fuel_budget }),
            Err(fault) => Err(fault),
        }
    }
}

impl ResolvedCall {
    #[verifier::type_invariant]
    spec fn well_formed(self) -> bool {
        &&& meters_fuel(self.store)
        &&& func_home(self.func) == store_id(self.store)
        &&& host_state(self.store).max_memory_bytes == self.memory_limit
        &&& fuel_left(self.store) <= self.fuel_budget
    }

    /// The memory ceiling of the run, in bytes.
    pub closed spec fn memory_limit(self) -> usize {
        self.memory_limit
    }

    /// The fuel the run was given.
    pub closed spec fn fuel_budget(self) -> u64 {
        self.fuel_budget
    }

    /// The fuel the run has left.
    pub closed spec fn fuel_left(self) -> u64 {
        fuel_left(self.store)
    }

    /// The host state of the run: its ceiling, and whether a growth request
    /// has been refused so far.
    pub closed spec fn state(self) -> SandboxState {
        host_state(self.store)
    }

    /// The arguments the function will be called with.
    pub closed spec fn args(self) -> Vec<i32> {
        self.args
    }

    /// Calls the function with the arguments, and times the call.
    ///
    /// The call that comes back finished is of the same run. Its host state
    /// is what the state has become by answering the growth requests of the
    /// call, and it has no more fuel left than there was. How the call
    /// ended is for the runtime to say.
    pub fn invoke(self) -> (finished: FinishedCall)
        ensures
            finished.memory_limit() == self.memory_limit(),
            finished.fuel_budget() == self.fuel_budget(),
            self.state().leads_to(finished.state()),
            finished.fuel_left() <= self.fuel_left(),
    {
        proof {
            use_type_invariant(&self);
        }
        let ResolvedCall { mut store, func, args, memory_limit, fuel_budget } = self;
        let ghost before = host_state(store);
        let start = Instant::now();
        let returned = invoke(&func, &mut store, &args);
        let elapsed = start.elapsed();
        proof {
            lemma_later_state_keeps_ceiling_and_refusal(before, host_state(store));
        }
        FinishedCall { store, returned, nanos: elapsed.as_nanos(), memory_limit, fuel_budget }
    }
}

impl FinishedCall {
    #[verifier::type_invariant]
    spec fn well_formed(self) -> bool {
        &&& meters_fuel(self.store)
        &&& host_state(self.store).max_memory_bytes == self.memory_limit
        &&& fuel_left(self.store) <= self.fuel_budget
    }

    /// The memory ceiling of the run, in bytes.
    pub closed spec fn memory_limit(self) -> usize {
        self.memory_limit
    }

    /// The fuel the run was given.
    pub closed spec fn fuel_budget(self) -> u64 {
        self.fuel_budget
    }

    /// The fuel the run has left.
    pub closed spec fn fuel_left(self) -> u64 {
        fuel_left(self.store)
    }

    /// The host state as the call left it: the ceiling, and whether a growth
    /// request was refused in the course of the run.
    pub closed spec fn state(self) -> SandboxState {
        host_state(self.store)
    }

    /// How the call ended.
    pub closed spec fn call(self) -> CallOutcome {
        classified(self.returned)
    }

    /// The time the call took, in nanoseconds.
    pub closed spec fn nanos(self) -> u128 {
        self.nanos
    }

    /// Reports on the run: the outcome is settled from how the call ended,
    /// from whether a growth request was refused by the time it had ended,
    /// and from the fuel that is left. A report shows the memory ceiling of
    /// the run and no more fuel used than its budget.
    pub fn report(self) -> (outcome: Result<ExectionReport, SandboxError>)
        ensures
            outcome == settled(
                self.call(),
                self.state().growth_denied,
                Some(self.fuel_left()),
                self.memory_limit(),
                self.fuel_budget(),
                self.nanos(),
            ),
            outcome matches Ok(report) ==> report.memory_consumed == self.memory_limit()
                && report.fuel_consumed == self.fuel_budget() - self.fuel_left(),
    {
        proof {
            use_type_invariant(&self);
        }
        let FinishedCall { store, returned, nanos, memory_limit, fuel_budget } = self;
        settle(
            classify(&returned),
            growth_denied(&store),
            remaining_fuel(&store),
            memory_limit,
            fuel_budget,
            nanos,
        )
    }
}

/// Runs the exported function `func_name` of the module `wasm` on `args`,
/// in a fresh sandbox that holds the guest to `mem_limit` bytes of linear
/// memory, to `MAX_TABLE_ENTRIES` table entries and to `fuel_limit` units of
/// fuel.
///
/// Whether the module loads and instantiates, and how the call ends, is for
/// the runtime to say. Whatever it says: a report shows the memory ceiling
/// the run was held to and no more fuel used than the budget; a run
/// succeeds only if the module declares the function with a signature that
/// fits the arguments; and a run fails only with a failure that fits what
/// the module declares, `FunctionNotFound` only where it declares no such
/// function and `SignatureMismatch` only where the signature does not fit.
pub fn run_wasm(
    wasm: &[u8],
    func_name: &str,
    args: Vec<i32>,
    mem_limit: usize,
    fuel_limit: u64,
) -> (outcome: Result<ExectionReport, SandboxError>)
    ensures
        outcome matches Ok(report) ==> report.memory_consumed == mem_limit && report.fuel_consumed
            <= fuel_limit,
        outcome is Ok ==> resolution(declared(wasm@, func_name@), args.len() as nat) is Ok,
        outcome matches Err(fault) ==> fault_fits(
            fault,
            resolution(declared(wasm@, func_name@), args.len() as nat),
        ),
{
    let compiled = match compile(wasm) {
        Ok(compiled) => compiled,
        Err(fault) => {
            return Err(fault);
        },
    };
    let context = match compiled.context(mem_limit, fuel_limit).instantiate(&compiled) {
        Ok(context) => context,
        Err(fault) => {
            return Err(fault);
        },
    };
    match context.resolve(func_name, args) {
        Ok(call) => call.invoke().report(),
        Err(fault) => Err(fault),
    }
}

/// Carries out `request` on the module whose bytes are `wasm`, the contents
/// of the file at `request.module_file`: runs the function
/// `request.function_name` on `request.args` under the request's memory
/// ceiling and fuel budget, as `run_wasm` does.
pub fn execute(request: InvocationRequest, wasm: &[u8]) -> (outcome: Result<
    ExectionReport,
    SandboxError,
>)
    ensures
        outcome matches Ok(report) ==> report.memory_consumed == request.memory_limit_bytes
            && report.fuel_consumed <= request.fuel_budget,
        outcome is Ok ==> resolution(
            declared(wasm@, request.function_name@),
            request.args.len() as nat,
        ) is Ok,
        outcome matches Err(fault) ==> fault_fits(
            fault,
            resolution(declared(wasm@, request.function_name@), request.args.len() as nat),
        ),
{
    run_wasm(
        wasm,
        request.function_name.as_str(),
        request.args,
        request.memory_limit_bytes,
        request.fuel_budget,
    )
}

/// If even one of the growth requests that a fresh state has answered was
/// for a memory beyond the memory ceiling or for a table beyond
/// `MAX_TABLE_ENTRIES`, then the outcome settled on the state they left is
/// `ResourceLimitExceeded`, whatever else was asked for and however the
/// call ended.
pub proof fn lemma_growth_beyond_a_ceiling_fails_the_run(
    mem_limit: usize,
    requests: Seq<GrowthRequest>,
    i: int,
    call: CallOutcome,
    remaining: Option<u64>,
    fuel_limit: u64,
    nanos: u128,
)
    requires
        0 <= i < requests.len(),
        !SandboxState::fresh(mem_limit).permits(requests[i]),
    ensures
        settled(
            call,
            SandboxState::fresh(mem_limit).after(requests).growth_denied,
            remaining,
            mem_limit,
            fuel_limit,
            nanos,
        ) == Err::<ExectionReport, SandboxError>(SandboxError::ResourceLimitExceeded),
{
    lemma_refusals_are_remembered(SandboxState::fresh(mem_limit), requests);
}

/// If the outcome settled on the state that a fresh state has become by
/// answering growth requests is a success, then every one of those requests
/// was within the ceilings, and the ceiling is still the one it began with.
pub proof fn lemma_successful_run_stayed_within_ceilings(
    mem_limit: usize,
    requests: Seq<GrowthRequest>,
    i: int,
    call: CallOutcome,
    remaining: Option<u64>,
    fuel_limit: u64,
    nanos: u128,
)
    requires
        0 <= i < requests.len(),
        settled(
            call,
            SandboxState::fresh(mem_limit).after(requests).growth_denied,
            remaining,
            mem_limit,
            fuel_limit,
            nanos,
        ) is Ok,
    ensures
        SandboxState::fresh(mem_limit).permits(requests[i]),
        SandboxState::fresh(mem_limit).after(requests).max_memory_bytes == mem_limit,
{
    lemma_refusals_are_remembered(SandboxState::fresh(mem_limit), requests);
    lemma_ceiling_is_fixed(SandboxState::fresh(mem_limit), requests);
}

} // verus!
