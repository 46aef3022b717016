//! The pipeline: load, link, set up the instance, find the entry point, call
//! it once. Each invocation has a store of its own, which is dropped when
//! the invocation ends, however it ends.

use vstd::prelude::*;
use wasmtime::{Engine, Module};
use crate::framing::is_well_framed;
use crate::host::{HostFunction, HostImportRegistry, ImportKey};
use crate::invoker::{
    check_entry_point,
    enter,
    entry_check,
    entry_outcome,
    read_entry_export,
    ENTRY_POINT,
};
use crate::laws::law_only_the_loader_reports_malformed;
use crate::linker::{link, read_imports, resolve_imports, set_up, setup_failure, Setup};
use crate::loader::{framing_failure, load_module, rejection};
use crate::outcome::{FailureKind, Outcome, OutcomeView};
use crate::runtime::{declared_export, declared_imports};
use crate::shape::{ImportView, ItemShapeView};

verus! {

/// What the runtime did in one invocation, at the steps that it alone
/// decides.
pub struct Observed {
    /// What came of setting up the instance.
    pub setup: Setup,
    /// Taking the entry point as a typed function: nothing where it went
    /// well, otherwise the cause.
    pub entry: Option<Seq<char>>,
    /// The call: the integer returned, or the cause of the fault.
    pub call: Result<i32, Seq<char>>,
}

/// The outcome of invoking a module with the given imports and the given
/// export under the entry point's name, where the runtime did as observed.
/// The steps are taken in order and the first failure ends the invocation:
/// link the imports, set up the instance, check the entry point, take it as
/// a typed function, call it.
pub open spec fn invocation_outcome(
    registry: Map<ImportKey, HostFunction>,
    imports: Seq<ImportView>,
    export: Option<ItemShapeView>,
    seen: Observed,
) -> OutcomeView {
    match link(registry, imports) {
        Err(failure) => OutcomeView::Fault(failure),
        Ok(_) => if !(seen.setup is Ready) {
            OutcomeView::Fault(setup_failure(seen.setup))
        } else {
            match entry_check(export) {
                Err(failure) => OutcomeView::Fault(failure),
                Ok(()) => entry_outcome(seen.entry, seen.call),
            }
        },
    }
}

/// What the runtime made of bytes that are framed as a module.
pub enum Loaded {
    /// The validator refused them, for this cause.
    Refused(Seq<char>),
    /// It compiled a module with these imports and this export under the
    /// entry point's name, and the invocation went as observed.
    Compiled { imports: Seq<ImportView>, export: Option<ItemShapeView>, seen: Observed },
}

/// The outcome of the whole pipeline on the given bytes, where the runtime
/// did as `loaded` says. Bytes that are not framed as a module are
/// malformed, whatever the runtime would have made of them.
pub open spec fn pipeline_outcome(
    registry: Map<ImportKey, HostFunction>,
    bytes: Seq<u8>,
    loaded: Loaded,
) -> OutcomeView {
    if !is_well_framed(bytes) {
        OutcomeView::Fault(framing_failure(bytes))
    } else {
        match loaded {
            Loaded::Refused(cause) => OutcomeView::Fault(rejection(cause)),
            Loaded::Compiled { imports, export, seen } => invocation_outcome(
                registry,
                imports,
                export,
                seen,
            ),
        }
    }
}

/// Invokes a validated module once, in a store of its own.
///
/// The imports are resolved against the registry before anything else: where
/// one does not resolve, the outcome is the link failure that names it, and
/// no store is made and no guest code runs. After that the runtime decides
/// at three steps, and the outcome is what `invocation_outcome` gives for
/// what the runtime did there.
pub fn invoke_module(engine: &Engine, registry: &HostImportRegistry, module: &Module) -> (out:
    Outcome)
    ensures
        exists|seen: Observed|
            out@ == #[trigger] invocation_outcome(
                registry@,
                declared_imports(*module),
                declared_export(*module, ENTRY_POINT@),
                seen,
            ),
        link(registry@, declared_imports(*module)) is Err ==> out@ == OutcomeView::Fault(
            link(registry@, declared_imports(*module))->Err_0,
        ),
{
    let ghost imports_seen = declared_imports(*module);
    let ghost export_seen = declared_export(*module, ENTRY_POINT@);
    let ghost mut seen = Observed { setup: Setup::Ready, entry: None, call: Ok(0i32) };
    let imports = read_imports(module);
    let bound = match resolve_imports(registry, &imports) {
        Ok(bound) => bound,
        Err(failure) => {
            let out = Outcome::Fault(failure);
            assert(out@ == invocation_outcome(registry@, imports_seen, export_seen, seen));
            return out;
        },
    };
    let (made, Ghost(setup)) = set_up(engine, module, &bound);
    proof {
        seen = Observed { setup, ..seen };
    }
    let (store, instance) = match made {
        Ok(pair) => pair,
        Err(failure) => {
            let out = Outcome::Fault(failure);
            assert(out@ == invocation_outcome(registry@, imports_seen, export_seen, seen));
            return out;
        },
    };
    let export = read_entry_export(module);
    match check_entry_point(&export) {
        Ok(()) => {},
        Err(failure) => {
            let out = Outcome::Fault(failure);
            assert(out@ == invocation_outcome(registry@, imports_seen, export_seen, seen));
            return out;
        },
    }
    let (out, Ghost(entry), Ghost(call)) = enter(store, &instance);
    proof {
        seen = Observed { entry, call, ..seen };
    }
    assert(out@ == invocation_outcome(registry@, imports_seen, export_seen, seen));
    out
}

/// Runs the module that the bytes encode, once, and reports the outcome.
///
/// Bytes that are not framed as a module give `MalformedBinary`, and
/// nothing else does. Of bytes that are, the runtime decides, and the
/// outcome is what `pipeline_outcome` gives for what the runtime did.
pub fn run_module(engine: &Engine, registry: &HostImportRegistry, bytes: &[u8]) -> (out: Outcome)
    ensures
        exists|loaded: Loaded| out@ == #[trigger] pipeline_outcome(registry@, bytes@, loaded),
        !is_well_framed(bytes@) ==> out@ == OutcomeView::Fault(framing_failure(bytes@)),
        is_well_framed(bytes@) ==> !(out@ is Fault && out@->Fault_0.kind
            == FailureKind::MalformedBinary),
{
    match load_module(engine, bytes) {
        Err(failure) => {
            let out = Outcome::Fault(failure);
            let ghost loaded = Loaded::Refused(failure@.detail);
            assert(out@ == pipeline_outcome(registry@, bytes@, loaded));
            out
        },
        Ok(module) => {
            let out = invoke_module(engine, registry, &module);
            proof {
                let imports = declared_imports(module);
                let export = declared_export(module, ENTRY_POINT@);
                let seen = choose|seen: Observed|
                    out@ == #[trigger] invocation_outcome(registry@, imports, export, seen);
                let loaded = Loaded::Compiled { imports, export, seen };
                assert(out@ == pipeline_outcome(registry@, bytes@, loaded));
                law_only_the_loader_reports_malformed(registry@, bytes@, loaded);
            }
            out
        },
    }
}

} // verus!
