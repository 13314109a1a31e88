use crate::executor::InvocationRequest;
use crate::limiter::within_ceiling;
use vstd::prelude::*;

verus! {

/// The exported function that is run when none is named.
pub const DEFAULT_FUNCTION: &'static str = "add";

/// The memory ceiling, in megabytes, when none is given.
pub const DEFAULT_MEMORY_MB: usize = 10;

/// The fuel budget when none is given.
pub const DEFAULT_FUEL: u64 = 10000;

/// Bytes in one megabyte.
pub const BYTES_PER_MEGABYTE: usize = 1048576;

/// The command line of the sandbox.
#[derive(Debug)]
pub struct Cli {
    pub command: Commands,
}

/// What the sandbox can be asked to do.
#[derive(Debug)]
pub enum Commands {
    /// Run one exported function of a module.
    Run {
        /// Path of the module file.
        path: String,
        /// Name of the exported function.
        function: String,
        /// Memory ceiling in megabytes.
        memory: usize,
        /// Fuel budget.
        fuel: u64,
        /// The arguments, in order.
        args: Vec<i32>,
    },
}

/// The memory ceiling in bytes that stands for `megabytes`: that many times
/// `BYTES_PER_MEGABYTE`, or the largest size there is where the product
/// would not fit.
pub open spec fn memory_ceiling(megabytes: usize) -> usize {
    if megabytes * BYTES_PER_MEGABYTE <= usize::MAX {
        (megabytes * BYTES_PER_MEGABYTE) as usize
    } else {
        usize::MAX
    }
}

/// Converts a memory ceiling from megabytes to bytes.
pub fn memory_limit_bytes(megabytes: usize) -> (bytes: usize)
    ensures
        bytes == memory_ceiling(megabytes),
{
    match megabytes.checked_mul(BYTES_PER_MEGABYTE) {
        Some(bytes) => bytes,
        None => usize::MAX,
    }
}

/// A ceiling that had to be capped at the largest size decides every
/// request exactly as the uncapped number of bytes would.
pub proof fn lemma_capped_ceiling_decides_alike(megabytes: usize, desired: usize)
    ensures
        within_ceiling(desired, memory_ceiling(megabytes)) <==> desired <= megabytes
            * BYTES_PER_MEGABYTE,
{
}

impl Cli {
    /// Turns the command line into the request handed to the executor.
    pub fn into_request(self) -> (request: InvocationRequest)
        ensures
            request == self.command.request(),
    {
        self.command.into_request()
    }
}

impl Commands {
    /// The request that this command stands for.
    pub open spec fn request(self) -> InvocationRequest {
        InvocationRequest {
            module_file: self->path,
            function_name: self->function,
            args: self->args,
            memory_limit_bytes: memory_ceiling(self->memory),
            fuel_budget: self->fuel,
        }
    }

    /// Turns the command into the request handed to the executor; the
    /// memory ceiling is converted to bytes on the way.
    pub fn into_request(self) -> (request: InvocationRequest)
        ensures
            request == self.request(),
    {
        match self {
            Commands::Run { path, function, memory, fuel, args } => InvocationRequest {
                module_file: path,
                function_name: function,
                args,
                memory_limit_bytes: memory_limit_bytes(memory),
                fuel_budget: fuel,
            },
        }
    }
}

} // verus!
