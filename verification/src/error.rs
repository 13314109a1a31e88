use vstd::prelude::*;

verus! {

/// Why a sandboxed invocation failed. Every failure is fatal to the
/// invocation it belongs to; none is retried and none leaves a partial report.
#[derive(Clone, Copy, Debug, PartialEq, Eq, Structural)]
pub enum SandboxError {
    /// The module could not be read, decoded, validated or compiled.
    ModuleLoad,
    /// The module could not be instantiated with no imports.
    Instantiation,
    /// The module exports no function under the requested name.
    FunctionNotFound,
    /// The export does not take the given number of 32-bit integers and
    /// return exactly one 32-bit integer.
    SignatureMismatch,
    /// The guest used up its fuel and was stopped.
    FuelExhausted,
    /// The guest asked for memory or table growth beyond a ceiling.
    ResourceLimitExceeded,
    /// The guest trapped for any other reason.
    GuestTrap,
    /// The call returned something other than one 32-bit integer.
    ResultType,
}

impl SandboxError {
    /// The name of each kind of failure.
    pub open spec fn spec_name(self) -> Seq<char> {
        match self {
            SandboxError::ModuleLoad => "ModuleLoadError"@,
            SandboxError::Instantiation => "InstantiationError"@,
            SandboxError::FunctionNotFound => "FunctionNotFoundError"@,
            SandboxError::SignatureMismatch => "SignatureMismatchError"@,
            SandboxError::FuelExhausted => "FuelExhaustedError"@,
            SandboxError::ResourceLimitExceeded => "ResourceLimitExceededError"@,
            SandboxError::GuestTrap => "GuestTrapError"@,
            SandboxError::ResultType => "ResultTypeError"@,
        }
    }

    /// What to tell a user about each kind of failure.
    pub open spec fn spec_message(self) -> Seq<char> {
        match self {
            SandboxError::ModuleLoad => "the module could not be loaded"@,
            SandboxError::Instantiation => "the module could not be instantiated"@,
            SandboxError::FunctionNotFound => "Function not found"@,
            SandboxError::SignatureMismatch => "the function does not take these 32-bit integers and return one"@,
            SandboxError::FuelExhausted => "the guest ran out of fuel"@,
            SandboxError::ResourceLimitExceeded => "the guest asked for more memory or table entries than allowed"@,
            SandboxError::GuestTrap => "the guest trapped"@,
            SandboxError::ResultType => "Expected i32 result"@,
        }
    }

    /// The name of this kind of failure, for logs.
    pub fn name(&self) -> (text: &'static str)
        ensures
            text@ == self.spec_name(),
    {
        match self {
            SandboxError::ModuleLoad => "ModuleLoadError",
            SandboxError::Instantiation => "InstantiationError",
            SandboxError::FunctionNotFound => "FunctionNotFoundError",
            SandboxError::SignatureMismatch => "SignatureMismatchError",
            SandboxError::FuelExhausted => "FuelExhaustedError",
            SandboxError::ResourceLimitExceeded => "ResourceLimitExceededError",
            SandboxError::GuestTrap => "GuestTrapError",
            SandboxError::ResultType => "ResultTypeError",
        }
    }

    /// A one-line message for this kind of failure.
    pub fn message(&self) -> (text: &'static str)
        ensures
            text@ == self.spec_message(),
    {
        match self {
            SandboxError::ModuleLoad => "the module could not be loaded",
            SandboxError::Instantiation => "the module could not be instantiated",
            SandboxError::FunctionNotFound => "Function not found",
            SandboxError::SignatureMismatch => "the function does not take these 32-bit integers and return one",
            SandboxError::FuelExhausted => "the guest ran out of fuel",
            SandboxError::ResourceLimitExceeded => "the guest asked for more memory or table entries than allowed",
            SandboxError::GuestTrap => "the guest trapped",
            SandboxError::ResultType => "Expected i32 result",
        }
    }
}

} // verus!
