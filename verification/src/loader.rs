//! The loader: turns untrusted bytes into a validated module, or says why
//! not.
//!
//! The runtime reports every refusal in the same way. To tell a malformed
//! binary from a module that is merely invalid, the loader checks the framing
//! of the bytes itself, before the runtime sees them: bytes that are not
//! framed as a module are malformed and never reach the runtime, and what
//! the runtime refuses after that has failed validation.

use vstd::prelude::*;
use vstd::string::*;
use wasmtime::{Engine, Module};
use crate::framing::{check_header, has_header, is_well_framed, well_framed};
use crate::outcome::{Failure, FailureKind, FailureView};
use crate::runtime::{cause_text, compile};

verus! {

/// The failure of bytes that are not framed as a module. Its cause says
/// whether the header or the sections are at fault.
pub open spec fn framing_failure(bytes: Seq<u8>) -> FailureView
    recommends
        !is_well_framed(bytes),
{
    FailureView {
        kind: FailureKind::MalformedBinary,
        detail: if has_header(bytes) {
            "sections do not fill the bytes"@
        } else {
            "no module header"@
        },
    }
}

/// The failure of bytes that are framed as a module and that the runtime's
/// validator refuses for the cause given.
pub open spec fn rejection(cause: Seq<char>) -> FailureView {
    FailureView { kind: FailureKind::ValidationFailed, detail: cause }
}

/// Checks the framing of the bytes.
pub fn check_framing(bytes: &[u8]) -> (r: Result<(), Failure>)
    ensures
        match r {
            Ok(()) => is_well_framed(bytes@),
            Err(failure) => !is_well_framed(bytes@) && failure@ == framing_failure(bytes@),
        },
{
    if !check_header(bytes) {
        Err(Failure::new(FailureKind::MalformedBinary, String::from_str("no module header")))
    } else if !well_framed(bytes) {
        Err(
            Failure::new(
                FailureKind::MalformedBinary,
                String::from_str("sections do not fill the bytes"),
            ),
        )
    } else {
        Ok(())
    }
}

/// The failure for a refusal by the runtime's validator.
pub fn reject(cause: String) -> (r: Failure)
    ensures
        r@ == rejection(cause@),
{
    Failure::new(FailureKind::ValidationFailed, cause)
}

/// Loads a module. Bytes that are not framed as a module are malformed, and
/// the runtime is not asked. Of bytes that are, the runtime decides: either
/// it hands back the validated module, or validation has failed.
pub fn load_module(engine: &Engine, bytes: &[u8]) -> (r: Result<Module, Failure>)
    ensures
        match r {
            Ok(_) => is_well_framed(bytes@),
            Err(failure) => if is_well_framed(bytes@) {
                failure@.kind == FailureKind::ValidationFailed
            } else {
                failure@ == framing_failure(bytes@)
            },
        },
{
    match check_framing(bytes) {
        Err(failure) => Err(failure),
        Ok(()) => match compile(engine, bytes) {
            Ok(module) => Ok(module),
            Err(error) => Err(reject(cause_text(&error))),
        },
    }
}

} // verus!
