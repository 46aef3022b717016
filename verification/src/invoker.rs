//! The invoker. It decides whether a module offers the entry point, has the
//! runtime call it once, and says what the call amounts to.

use vstd::prelude::*;
use vstd::string::*;
use wasmtime::{Instance, Module, Store};
use crate::outcome::{Failure, FailureKind, FailureView, Outcome, OutcomeView};
use crate::runtime::{
    call_entry,
    cause_text,
    declared_export,
    describe,
    instance_home,
    module_export,
    store_ident,
    typed_entry,
};
use crate::shape::{ItemShape, ItemShapeView, Signature, SignatureView, ValueKind};

verus! {

/// The name of the export that is called.
pub const ENTRY_POINT: &'static str = "do_work";

/// The signature of the entry point: nothing in, one 32-bit integer out.
pub open spec fn entry_signature() -> SignatureView {
    SignatureView { params: Seq::empty(), results: seq![ValueKind::I32] }
}

/// Whether a signature is the entry point's.
pub fn is_entry_signature(signature: &Signature) -> (r: bool)
    ensures
        r == (signature@ == entry_signature()),
{
    let r = signature.params.len() == 0 && signature.results.len() == 1 && signature.results[0]
        == ValueKind::I32;
    proof {
        if r {
            assert(signature@.params =~= entry_signature().params);
            assert(signature@.results =~= entry_signature().results);
        }
    }
    r
}

/// The failure of a module that exports nothing under the entry point's name.
pub open spec fn missing_entry_point() -> FailureView {
    FailureView {
        kind: FailureKind::MissingEntryPoint,
        detail: "no export named "@ + ENTRY_POINT@,
    }
}

/// The failure of a module whose export under the entry point's name is not
/// a function of the entry point's signature.
pub open spec fn signature_mismatch() -> FailureView {
    FailureView {
        kind: FailureKind::SignatureMismatch,
        detail: "export "@ + ENTRY_POINT@ + " is not a function from nothing to i32"@,
    }
}

/// Whether a module can be entered, given what it exports under the entry
/// point's name: nothing is a missing entry point, anything but a function
/// of the entry point's signature is a mismatch.
pub open spec fn entry_check(export: Option<ItemShapeView>) -> Result<(), FailureView> {
    match export {
        None => Err(missing_entry_point()),
        Some(shape) => if shape == ItemShapeView::Func(entry_signature()) {
            Ok(())
        } else {
            Err(signature_mismatch())
        },
    }
}

/// The shape of an export, if there is one, as a mathematical value.
pub open spec fn export_view(export: Option<ItemShape>) -> Option<ItemShapeView> {
    match export {
        Some(shape) => Some(shape@),
        None => None,
    }
}

/// Decides whether a module can be entered, from what it exports under the
/// entry point's name.
pub fn check_entry_point(export: &Option<ItemShape>) -> (r: Result<(), Failure>)
    ensures
        match r {
            Ok(()) => entry_check(export_view(*export)) is Ok,
            Err(failure) => entry_check(export_view(*export)) == Err::<(), FailureView>(failure@),
        },
{
    match export {
        None => {
            let mut detail = String::from_str("no export named ");
            detail.append(ENTRY_POINT);
            Err(Failure::new(FailureKind::MissingEntryPoint, detail))
        },
        Some(ItemShape::Func(signature)) => {
            if is_entry_signature(signature) {
                Ok(())
            } else {
                Err(mismatch())
            }
        },
        Some(_) => Err(mismatch()),
    }
}

fn mismatch() -> (r: Failure)
    ensures
        r@ == signature_mismatch(),
{
    let mut detail = String::from_str("export ");
    detail.append(ENTRY_POINT);
    detail.append(" is not a function from nothing to i32");
    Failure::new(FailureKind::SignatureMismatch, detail)
}

/// Reads what a module exports under the entry point's name.
pub fn read_entry_export(module: &Module) -> (r: Option<ItemShape>)
    ensures
        export_view(r) == declared_export(*module, ENTRY_POINT@),
{
    match module_export(module, ENTRY_POINT) {
        Some(item) => Some(describe(&item)),
        None => None,
    }
}

/// The failure of an entry point that the runtime will not hand out as a
/// function from nothing to one 32-bit integer.
pub open spec fn entry_refused(cause: Seq<char>) -> FailureView {
    FailureView { kind: FailureKind::SignatureMismatch, detail: cause }
}

/// The failure for an entry point that the runtime did not hand out.
pub fn refuse_entry(cause: String) -> (r: Failure)
    ensures
        r@ == entry_refused(cause@),
{
    Failure::new(FailureKind::SignatureMismatch, cause)
}

/// What the call of the entry point amounts to: the integer it returned, or
/// a trap with the runtime's account of the fault.
pub open spec fn call_outcome(result: Result<i32, Seq<char>>) -> OutcomeView {
    match result {
        Ok(value) => OutcomeView::Value(value),
        Err(cause) => OutcomeView::Fault(FailureView { kind: FailureKind::Trap, detail: cause }),
    }
}

/// The text of a fault, if there is one, as a mathematical value.
pub open spec fn call_view(result: Result<i32, String>) -> Result<i32, Seq<char>> {
    match result {
        Ok(value) => Ok(value),
        Err(cause) => Err(cause@),
    }
}

/// Turns the result of the call into the outcome of the invocation.
pub fn conclude(result: Result<i32, String>) -> (r: Outcome)
    ensures
        r@ == call_outcome(call_view(result)),
{
    match result {
        Ok(value) => Outcome::Value(value),
        Err(cause) => Outcome::Fault(Failure::new(FailureKind::Trap, cause)),
    }
}

/// What taking the entry point and calling it amounts to, where the runtime
/// did as given: `entry` is the cause for which it did not hand out the
/// entry point, if it did not, and `call` is what the call gave.
pub open spec fn entry_outcome(
    entry: Option<Seq<char>>,
    call: Result<i32, Seq<char>>,
) -> OutcomeView {
    match entry {
        Some(cause) => OutcomeView::Fault(entry_refused(cause)),
        None => call_outcome(call),
    }
}

/// Takes the entry point as a typed function and calls it, once. The store
/// is used up: nothing else can be called in it. Beside the outcome stands
/// what the runtime did at the two steps.
pub(crate) fn enter(store: Store<()>, instance: &Instance) -> (r: (
    Outcome,
    Ghost<Option<Seq<char>>>,
    Ghost<Result<i32, Seq<char>>>,
))
    requires
        instance_home(*instance) == store_ident(store),
    ensures
        r.0@ == entry_outcome(r.1@, r.2@),
{
    let mut store = store;
    let entry = match typed_entry(&mut store, instance, ENTRY_POINT) {
        Ok(entry) => entry,
        Err(error) => {
            let failure = refuse_entry(cause_text(&error));
            let ghost cause = failure@.detail;
            return (Outcome::Fault(failure), Ghost(Some(cause)), Ghost(Ok(0i32)));
        },
    };
    let result = match call_entry(store, &entry) {
        Ok(value) => Ok(value),
        Err(error) => Err(cause_text(&error)),
    };
    let ghost call = call_view(result);
    (conclude(result), Ghost(None), Ghost(call))
}

} // verus!
