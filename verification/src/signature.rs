use crate::error::SandboxError;
use crate::runtime::{kind_of, value_kind};
use vstd::prelude::*;
use wasmtime::ValType;

verus! {

/// The kind of a value that crosses the guest boundary.
#[derive(Clone, Copy, Debug, PartialEq, Eq, Structural)]
pub enum ValueKind {
    /// 32-bit integer.
    I32,
    /// 64-bit integer.
    I64,
    /// 32-bit float.
    F32,
    /// 64-bit float.
    F64,
    /// 128-bit vector.
    V128,
    /// Reference of any type.
    Ref,
}

/// The declared type of an exported function: the kinds of its parameters
/// and of its results, in order.
#[derive(Debug)]
pub struct Signature {
    pub params: Vec<ValueKind>,
    pub results: Vec<ValueKind>,
}

/// Every kind in `kinds` is a 32-bit integer.
pub open spec fn all_i32(kinds: Seq<ValueKind>) -> bool {
    forall|i: int| 0 <= i < kinds.len() ==> kinds[i] == ValueKind::I32
}

/// A function with these parameters and results can be called with
/// `arg_count` 32-bit integers for one 32-bit integer: it takes exactly that
/// many parameters, all of them 32-bit integers, and returns exactly one
/// result, a 32-bit integer. Nothing is coerced.
pub open spec fn callable(params: Seq<ValueKind>, results: Seq<ValueKind>, arg_count: nat) -> bool {
    &&& params.len() == arg_count
    &&& all_i32(params)
    &&& results.len() == 1
    &&& results[0] == ValueKind::I32
}

/// What becomes of a call with `arg_count` 32-bit integers to an export
/// that declares `export`, or is no function if `export` is nothing: a
/// missing function is `FunctionNotFound`, a function that cannot be called
/// so is `SignatureMismatch`, and any other can be called.
pub open spec fn resolution(
    export: Option<(Seq<ValueKind>, Seq<ValueKind>)>,
    arg_count: nat,
) -> Result<(), SandboxError> {
    match export {
        None => Err(SandboxError::FunctionNotFound),
        Some(kinds) => if callable(kinds.0, kinds.1, arg_count) {
            Ok(())
        } else {
            Err(SandboxError::SignatureMismatch)
        },
    }
}

/// The kinds that a looked-up export declares, if one was found.
pub open spec fn kinds_of_export<F>(export: Option<(F, Signature)>) -> Option<
    (Seq<ValueKind>, Seq<ValueKind>),
> {
    match export {
        Some(found) => Some(found.1.kinds()),
        None => None,
    }
}

/// Whether every kind in `kinds` is a 32-bit integer.
pub fn only_i32(kinds: &Vec<ValueKind>) -> (all: bool)
    ensures
        all == all_i32(kinds@),
{
    let mut i: usize = 0;
    while i < kinds.len()
        invariant
            i <= kinds.len(),
            forall|j: int| 0 <= j < i ==> kinds@[j] == ValueKind::I32,
        decreases kinds.len() - i,
    {
        if kinds[i] != ValueKind::I32 {
            return false;
        }
        i += 1;
    }
    true
}

/// The kinds that a list of runtime types stands for, one for one.
pub open spec fn kinds_of_types(types: Seq<ValType>) -> Seq<ValueKind> {
    types.map_values(|ty: ValType| kind_of(ty))
}

/// Reads off the kind of each runtime type in `types`, in order.
pub fn kinds_of(types: &Vec<ValType>) -> (kinds: Vec<ValueKind>)
    ensures
        kinds@ == kinds_of_types(types@),
{
    let mut kinds: Vec<ValueKind> = Vec::new();
    let mut i: usize = 0;
    while i < types.len()
        invariant
            i <= types.len(),
            kinds@ == kinds_of_types(types@.take(i as int)),
        decreases types.len() - i,
    {
        kinds.push(value_kind(&types[i]));
        assert(types@.take(i + 1) == types@.take(i as int).push(types@[i as int]));
        i += 1;
    }
    assert(types@.take(i as int) == types@);
    kinds
}

impl Signature {
    /// The signature that a function with these parameter and result types
    /// has.
    pub fn from_types(params: &Vec<ValType>, results: &Vec<ValType>) -> (signature: Signature)
        ensures
            signature.params@ == kinds_of_types(params@),
            signature.results@ == kinds_of_types(results@),
    {
        Signature { params: kinds_of(params), results: kinds_of(results) }
    }

    /// The kinds of the parameters and of the results.
    pub open spec fn kinds(self) -> (Seq<ValueKind>, Seq<ValueKind>) {
        (self.params@, self.results@)
    }

    /// The signature can serve a call with `arg_count` 32-bit integers.
    pub open spec fn accepts(&self, arg_count: nat) -> bool {
        callable(self.params@, self.results@, arg_count)
    }

    /// Checks the signature against a call with `arg_count` 32-bit integer
    /// arguments: `Ok` exactly when the signature accepts the call, and
    /// `SignatureMismatch` otherwise.
    pub fn check(&self, arg_count: usize) -> (checked: Result<(), SandboxError>)
        ensures
            checked is Ok <==> self.accepts(arg_count as nat),
            checked matches Err(e) ==> e == SandboxError::SignatureMismatch,
    {
        if self.params.len() == arg_count && only_i32(&self.params) && self.results.len() == 1
            && self.results[0] == ValueKind::I32 {
            Ok(())
        } else {
            Err(SandboxError::SignatureMismatch)
        }
    }
}

/// Decides what becomes of a call with `arg_count` 32-bit integers to an
/// export that was looked up: `export` holds what was found, with its
/// signature, or nothing if no function is exported under the name. What
/// was found is handed back exactly when it can be called so; a missing
/// function is `FunctionNotFound`, and a signature that does not fit is
/// `SignatureMismatch`.
pub fn resolve_export<F>(export: Option<(F, Signature)>, arg_count: usize) -> (resolved: Result<
    F,
    SandboxError,
>)
    ensures
        resolved is Ok <==> resolution(kinds_of_export(export), arg_count as nat) is Ok,
        resolved matches Ok(found) ==> export matches Some(pair) && pair.0 == found,
        resolved matches Err(fault) ==> resolution(kinds_of_export(export), arg_count as nat)
            == Err::<(), SandboxError>(fault),
{
    match export {
        None => Err(SandboxError::FunctionNotFound),
        Some((found, signature)) => match signature.check(arg_count) {
            Ok(()) => Ok(found),
            Err(mismatch) => Err(mismatch),
        },
    }
}

} // verus!
