//! What holds of the pipeline for every input and for everything that the
//! runtime may do.

use vstd::prelude::*;
use crate::framing::is_well_framed;
use crate::host::{host_signature, HostFunction, ImportKey};
use crate::invoker::{entry_check, entry_signature, missing_entry_point};
use crate::linker::{bound_before, first_unbound, link, link_failure, resolve};
use crate::loader::framing_failure;
use crate::outcome::{FailureKind, FailureView, OutcomeView};
use crate::pipeline::{pipeline_outcome, Loaded, Observed};
use crate::shape::{ImportView, ItemShapeView};

verus! {

/// Bytes that are not framed as a module are reported as a malformed
/// binary, whatever the runtime would have made of them: the pipeline ends
/// at the loader, before anything is linked.
pub proof fn law_malformed_bytes_end_at_the_loader(
    registry: Map<ImportKey, HostFunction>,
    bytes: Seq<u8>,
    loaded: Loaded,
)
    requires
        !is_well_framed(bytes),
    ensures
        pipeline_outcome(registry, bytes, loaded) == OutcomeView::Fault(framing_failure(bytes)),
        framing_failure(bytes).kind == FailureKind::MalformedBinary,
{
}

/// Bytes that are framed as a module are never reported as a malformed
/// binary, whatever the runtime makes of them: no later step reports one.
pub proof fn law_only_the_loader_reports_malformed(
    registry: Map<ImportKey, HostFunction>,
    bytes: Seq<u8>,
    loaded: Loaded,
)
    requires
        is_well_framed(bytes),
    ensures
        !(pipeline_outcome(registry, bytes, loaded) is Fault && pipeline_outcome(
            registry,
            bytes,
            loaded,
        )->Fault_0.kind == FailureKind::MalformedBinary),
{
}

/// A module with an import that is not bound fails to link, whatever
/// setting up the instance or calling into it would have given: the failure
/// is decided before any guest code runs. The failure is that of the first
/// import that is not bound.
pub proof fn law_unbound_import_fails_to_link(
    registry: Map<ImportKey, HostFunction>,
    bytes: Seq<u8>,
    imports: Seq<ImportView>,
    export: Option<ItemShapeView>,
    seen: Observed,
    i: int,
)
    requires
        is_well_framed(bytes),
        0 <= i < imports.len(),
        !(resolve(registry, imports[i]) is Bound),
    ensures
        pipeline_outcome(registry, bytes, Loaded::Compiled { imports, export, seen }) is Fault,
        pipeline_outcome(registry, bytes, Loaded::Compiled { imports, export, seen })->Fault_0.kind
            == FailureKind::LinkFailed,
        exists|first: int|
            first_unbound(registry, imports, first) && pipeline_outcome(
                registry,
                bytes,
                Loaded::Compiled { imports, export, seen },
            ) == OutcomeView::Fault(
                link_failure(imports[first], resolve(registry, imports[first])),
            ),
{
    assert(!bound_before(registry, imports, imports.len() as int));
    lemma_some_import_is_first_unbound(registry, imports, imports.len() as int);
    let first = choose|first: int| first_unbound(registry, imports, first);
    assert(first_unbound(registry, imports, first));
}

/// A module that imports what the registry does not have, because the name
/// or the namespace is another, fails to link, whatever setting up the
/// instance or calling into it would have given.
pub proof fn law_unknown_import_fails_to_link(
    registry: Map<ImportKey, HostFunction>,
    bytes: Seq<u8>,
    imports: Seq<ImportView>,
    export: Option<ItemShapeView>,
    seen: Observed,
    i: int,
)
    requires
        is_well_framed(bytes),
        0 <= i < imports.len(),
        !registry.contains_key((imports[i].namespace, imports[i].name)),
    ensures
        pipeline_outcome(registry, bytes, Loaded::Compiled { imports, export, seen }) is Fault,
        pipeline_outcome(registry, bytes, Loaded::Compiled { imports, export, seen })->Fault_0.kind
            == FailureKind::LinkFailed,
{
    assert(resolve(registry, imports[i]) is Unknown);
    law_unbound_import_fails_to_link(registry, bytes, imports, export, seen, i);
}

/// Where not every one of the first `n` imports is bound, one of them is the
/// first that is not.
proof fn lemma_some_import_is_first_unbound(
    registry: Map<ImportKey, HostFunction>,
    imports: Seq<ImportView>,
    n: int,
)
    requires
        0 <= n <= imports.len(),
        !bound_before(registry, imports, n),
    ensures
        exists|first: int| first_unbound(registry, imports, first),
    decreases n,
{
    if n > 0 {
        if bound_before(registry, imports, n - 1) {
            assert(first_unbound(registry, imports, n - 1));
        } else {
            lemma_some_import_is_first_unbound(registry, imports, n - 1);
        }
    }
}

/// A module that links and is set up, and that exports nothing under the
/// entry point's name, is reported as missing its entry point.
pub proof fn law_missing_entry_point_is_reported(
    registry: Map<ImportKey, HostFunction>,
    bytes: Seq<u8>,
    imports: Seq<ImportView>,
    seen: Observed,
)
    requires
        is_well_framed(bytes),
        link(registry, imports) is Ok,
        seen.setup is Ready,
    ensures
        pipeline_outcome(registry, bytes, Loaded::Compiled { imports, export: None, seen })
            == OutcomeView::Fault(missing_entry_point()),
        missing_entry_point().kind == FailureKind::MissingEntryPoint,
{
}

/// A module whose imports, if it has any, are all functions that the
/// registry has, declared with the host signature, and which exports the
/// entry point with its signature, gives exactly the integer that the call
/// returned, where the runtime set the instance up and the call came back.
pub proof fn law_returned_value_is_the_outcome(
    registry: Map<ImportKey, HostFunction>,
    bytes: Seq<u8>,
    imports: Seq<ImportView>,
    seen: Observed,
    value: i32,
)
    requires
        is_well_framed(bytes),
        forall|i: int|
            0 <= i < imports.len() ==> {
                &&& registry.contains_key(
                    ((#[trigger] imports[i]).namespace, imports[i].name),
                )
                &&& imports[i].item == ItemShapeView::Func(host_signature())
            },
        seen.setup is Ready,
        seen.entry is None,
        seen.call == Ok::<i32, Seq<char>>(value),
    ensures
        pipeline_outcome(
            registry,
            bytes,
            Loaded::Compiled {
                imports,
                export: Some(ItemShapeView::Func(entry_signature())),
                seen,
            },
        ) == OutcomeView::Value(value),
{
    assert(bound_before(registry, imports, imports.len() as int)) by {
        assert forall|k: int| 0 <= k < imports.len() implies (#[trigger] resolve(
            registry,
            imports[k],
        )) is Bound by {
            assert(registry.contains_key((imports[k].namespace, imports[k].name)));
        }
    }
}

/// A value is the outcome only where every step went well: the bytes are
/// framed as a module, the runtime compiled it, every import is bound, the
/// instance stands, the entry point is there with its signature, and the
/// call returned that value.
pub proof fn law_value_comes_from_the_call(
    registry: Map<ImportKey, HostFunction>,
    bytes: Seq<u8>,
    loaded: Loaded,
    value: i32,
)
    requires
        pipeline_outcome(registry, bytes, loaded) == OutcomeView::Value(value),
    ensures
        is_well_framed(bytes),
        loaded matches Loaded::Compiled { imports, export, seen } && {
            &&& link(registry, imports) is Ok
            &&& seen.setup is Ready
            &&& entry_check(export) is Ok
            &&& seen.entry is None
            &&& seen.call == Ok::<i32, Seq<char>>(value)
        },
{
}

/// A diagnostic is never empty and begins with the name of the failure's
/// kind, and no two kinds have the same name: a caller can tell from the
/// diagnostic which kind of failure it reports.
pub proof fn law_diagnostic_names_its_kind(failure: FailureView, other: FailureKind)
    ensures
        failure.message().len() > 0,
        failure.kind.label_text().is_prefix_of(failure.message()),
        other != failure.kind ==> other.label_text() != failure.kind.label_text(),
{
    reveal_strlit("MalformedBinary");
    reveal_strlit("ValidationFailed");
    reveal_strlit("LinkFailed");
    reveal_strlit("MissingEntryPoint");
    reveal_strlit("SignatureMismatch");
    reveal_strlit("Trap");
    let label = failure.kind.label_text();
    assert(failure.message().subrange(0, label.len() as int) =~= label);
    if other != failure.kind && other.label_text().len() == label.len() {
        assert(other.label_text()[0] != label[0]);
    }
}

} // verus!
