//! The linker. It decides which host function each import of a module is
//! bound to, or which import stops the module from being linked, and then
//! has the runtime set up the instance in a store of its own.

use vstd::prelude::*;
use vstd::string::*;
use wasmtime::{Engine, Extern, Instance, Module, Store};
use crate::host::{host_signature, is_host_signature, HostFunction, HostImportRegistry, ImportKey};
use crate::outcome::{Failure, FailureKind, FailureView};
use crate::runtime::{
    cause_text,
    declared_imports,
    describe,
    extern_shape,
    host_func,
    instance_home,
    instantiate,
    is_trap,
    module_imports,
    new_store,
    store_ident,
};
use crate::shape::{import_views, ImportDecl, ImportView, ItemShape, ItemShapeView};

verus! {

/// How one import fares against the registry.
#[derive(Clone, Copy, Debug, PartialEq, Eq, Structural)]
pub enum Resolution {
    /// The registry has the function, and the import declares its signature.
    Bound(HostFunction),
    /// The registry has nothing under the import's namespace and name.
    Unknown,
    /// The registry has an entry, but the import is not a function of the
    /// entry's signature.
    Mismatched,
}

/// The resolution of one import.
pub open spec fn resolve(registry: Map<ImportKey, HostFunction>, import: ImportView) -> Resolution {
    if !registry.contains_key((import.namespace, import.name)) {
        Resolution::Unknown
    } else if import.item != ItemShapeView::Func(host_signature()) {
        Resolution::Mismatched
    } else {
        Resolution::Bound(registry[(import.namespace, import.name)])
    }
}

/// The failure that an unresolved import causes. Its cause says whether the
/// import is unknown or mismatched, and names it: namespace, `::`, name.
pub open spec fn link_failure(import: ImportView, resolution: Resolution) -> FailureView {
    let reason = if resolution is Unknown {
        "unknown import "@
    } else {
        "mismatched import "@
    };
    FailureView {
        kind: FailureKind::LinkFailed,
        detail: reason + import.namespace + "::"@ + import.name,
    }
}

/// Whether each of the first `n` imports is bound.
pub open spec fn bound_before(
    registry: Map<ImportKey, HostFunction>,
    imports: Seq<ImportView>,
    n: int,
) -> bool {
    forall|k: int| 0 <= k < n ==> (#[trigger] resolve(registry, imports[k])) is Bound
}

/// Whether import `i` is the first that is not bound.
pub open spec fn first_unbound(
    registry: Map<ImportKey, HostFunction>,
    imports: Seq<ImportView>,
    i: int,
) -> bool {
    &&& 0 <= i < imports.len()
    &&& !(resolve(registry, imports[i]) is Bound)
    &&& bound_before(registry, imports, i)
}

/// What linking gives. Where every import is bound: the host functions, one
/// for each import and in the order of the imports. Otherwise: the failure
/// caused by the first import that is not bound.
pub open spec fn link(registry: Map<ImportKey, HostFunction>, imports: Seq<ImportView>) -> Result<
    Seq<HostFunction>,
    FailureView,
> {
    if bound_before(registry, imports, imports.len() as int) {
        Ok(Seq::new(imports.len(), |k: int| resolve(registry, imports[k])->Bound_0))
    } else {
        let i = choose|i: int| first_unbound(registry, imports, i);
        Err(link_failure(imports[i], resolve(registry, imports[i])))
    }
}

/// At most one import is the first that is not bound.
pub proof fn lemma_first_unbound_unique(
    registry: Map<ImportKey, HostFunction>,
    imports: Seq<ImportView>,
    i: int,
    j: int,
)
    requires
        first_unbound(registry, imports, i),
        first_unbound(registry, imports, j),
    ensures
        i == j,
{
    if i < j {
        assert(resolve(registry, imports[i]) is Bound);
    }
    if j < i {
        assert(resolve(registry, imports[j]) is Bound);
    }
}

/// Resolves one import against the registry.
pub fn resolve_import(registry: &HostImportRegistry, import: &ImportDecl) -> (r: Resolution)
    ensures
        r == resolve(registry@, import@),
{
    match registry.lookup(&import.namespace, &import.name) {
        None => Resolution::Unknown,
        Some(function) => match &import.item {
            ItemShape::Func(signature) => {
                if is_host_signature(signature) {
                    Resolution::Bound(function)
                } else {
                    Resolution::Mismatched
                }
            },
            _ => Resolution::Mismatched,
        },
    }
}

fn unresolved(import: &ImportDecl, resolution: Resolution) -> (r: Failure)
    requires
        !(resolution is Bound),
    ensures
        r@ == link_failure(import@, resolution),
{
    let mut detail = match resolution {
        Resolution::Unknown => String::from_str("unknown import "),
        _ => String::from_str("mismatched import "),
    };
    detail.append(import.namespace.as_str());
    detail.append("::");
    detail.append(import.name.as_str());
    Failure::new(FailureKind::LinkFailed, detail)
}

/// Resolves every import of a module against the registry, in order, and
/// stops at the first that is not bound.
pub fn resolve_imports(registry: &HostImportRegistry, imports: &Vec<ImportDecl>) -> (r: Result<
    Vec<HostFunction>,
    Failure,
>)
    ensures
        match r {
            Ok(bound) => link(registry@, import_views(imports@)) == Ok::<
                Seq<HostFunction>,
                FailureView,
            >(bound@),
            Err(failure) => link(registry@, import_views(imports@)) == Err::<
                Seq<HostFunction>,
                FailureView,
            >(failure@),
        },
{
    let ghost views = import_views(imports@);
    let mut bound: Vec<HostFunction> = Vec::new();
    let mut i: usize = 0;
    while i < imports.len()
        invariant
            i <= imports.len(),
            views == import_views(imports@),
            bound_before(registry@, views, i as int),
            bound@.len() == i,
            forall|k: int| 0 <= k < i ==> bound@[k] == resolve(registry@, views[k])->Bound_0,
        decreases imports.len() - i,
    {
        let resolution = resolve_import(registry, &imports[i]);
        assert(views[i as int] == imports@[i as int]@);
        match resolution {
            Resolution::Bound(function) => {
                bound.push(function);
            },
            _ => {
                proof {
                    assert(first_unbound(registry@, views, i as int));
                    assert(!bound_before(registry@, views, views.len() as int));
                    let j = choose|j: int| first_unbound(registry@, views, j);
                    lemma_first_unbound_unique(registry@, views, i as int, j);
                }
                return Err(unresolved(&imports[i], resolution));
            },
        }
        i += 1;
    }
    assert(bound@ =~= Seq::new(views.len(), |k: int| resolve(registry@, views[k])->Bound_0));
    Ok(bound)
}

/// Reads the imports that a module declares, in the module's order.
pub fn read_imports(module: &Module) -> (r: Vec<ImportDecl>)
    ensures
        import_views(r@) == declared_imports(*module),
{
    let raw = module_imports(module);
    let mut imports: Vec<ImportDecl> = Vec::new();
    let mut i: usize = 0;
    while i < raw.len()
        invariant
            i <= raw.len(),
            imports@.len() == i,
            raw@.len() == declared_imports(*module).len(),
            forall|k: int|
                0 <= k < raw@.len() ==> {
                    &&& (#[trigger] raw@[k]).0@ == declared_imports(*module)[k].namespace
                    &&& raw@[k].1@ == declared_imports(*module)[k].name
                    &&& extern_shape(raw@[k].2) == declared_imports(*module)[k].item
                },
            forall|k: int| 0 <= k < i ==> (#[trigger] imports@[k])@ == declared_imports(*module)[k],
        decreases raw.len() - i,
    {
        let item = describe(&raw[i].2);
        let decl = ImportDecl { namespace: raw[i].0.clone(), name: raw[i].1.clone(), item };
        assert(raw@[i as int].0@ == declared_imports(*module)[i as int].namespace);
        imports.push(decl);
        i += 1;
    }
    assert(import_views(imports@) =~= declared_imports(*module));
    imports
}

/// What came of setting up the instance: making the store, making the host
/// functions in it, instantiating the module.
pub enum Setup {
    /// The instance stands.
    Ready,
    /// Guest code trapped on the way, for this cause.
    Trapped(Seq<char>),
    /// The runtime refused, for this cause.
    Refused(Seq<char>),
}

/// The failure of an instance that could not be set up: a trap where guest
/// code trapped on the way, and otherwise a failure to link.
pub open spec fn setup_failure(setup: Setup) -> FailureView
    recommends
        !(setup is Ready),
{
    match setup {
        Setup::Trapped(cause) => FailureView { kind: FailureKind::Trap, detail: cause },
        Setup::Refused(cause) => FailureView { kind: FailureKind::LinkFailed, detail: cause },
        Setup::Ready => FailureView { kind: FailureKind::LinkFailed, detail: Seq::empty() },
    }
}

/// What came of a setup that failed, from what the runtime said of it.
pub open spec fn failed_setup(trapped: bool, cause: Seq<char>) -> Setup {
    if trapped {
        Setup::Trapped(cause)
    } else {
        Setup::Refused(cause)
    }
}

/// The failure for a setup that the runtime did not complete: `trapped`
/// says whether a trap was the reason.
pub fn refuse_setup(trapped: bool, cause: String) -> (r: Failure)
    ensures
        r@ == setup_failure(failed_setup(trapped, cause@)),
{
    if trapped {
        Failure::new(FailureKind::Trap, cause)
    } else {
        Failure::new(FailureKind::LinkFailed, cause)
    }
}

/// Sets up the instance: makes a fresh store, makes in it one function for
/// each host function, in order, and instantiates the module with them.
/// Beside the result stands what came of it.
pub(crate) fn set_up(engine: &Engine, module: &Module, bound: &Vec<HostFunction>) -> (r: (
    Result<(Store<()>, Instance), Failure>,
    Ghost<Setup>,
))
    ensures
        match r.0 {
            Ok((store, instance)) => r.1@ is Ready && instance_home(instance) == store_ident(store),
            Err(failure) => !(r.1@ is Ready) && failure@ == setup_failure(r.1@),
        },
{
    let mut store = match new_store(engine) {
        Ok(store) => store,
        Err(error) => {
            let failure = refuse_setup(false, cause_text(&error));
            return (Err(failure), Ghost(Setup::Refused(failure@.detail)));
        },
    };
    let mut externs: Vec<Extern> = Vec::new();
    let mut i: usize = 0;
    while i < bound.len()
        invariant
            i <= bound.len(),
            externs@.len() == i,
        decreases bound.len() - i,
    {
        match host_func(&mut store, bound[i]) {
            Ok(item) => {
                externs.push(item);
            },
            Err(error) => {
                let failure = refuse_setup(false, cause_text(&error));
                return (Err(failure), Ghost(Setup::Refused(failure@.detail)));
            },
        }
        i += 1;
    }
    match instantiate(&mut store, module, &externs) {
        Ok(instance) => (Ok((store, instance)), Ghost(Setup::Ready)),
        Err(error) => {
            let trapped = is_trap(&error);
            let failure = refuse_setup(trapped, cause_text(&error));
            (Err(failure), Ghost(failed_setup(trapped, failure@.detail)))
        },
    }
}

} // verus!
