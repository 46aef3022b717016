//! The host import registry: the functions that a guest module may import
//! from the host, each under a namespace and a name.

use vstd::prelude::*;
use vstd::string::*;
use crate::shape::{Signature, SignatureView, ValueKind};

verus! {

/// The sum of two 32-bit integers as a 32-bit integer: the exact sum where it
/// fits, and the sum brought back into range by 2^32 where it does not.
pub open spec fn sum32(a: int, b: int) -> int {
    if a + b > i32::MAX {
        a + b - 0x1_0000_0000
    } else if a + b < i32::MIN {
        a + b + 0x1_0000_0000
    } else {
        a + b
    }
}

/// Integer addition as the guest sees it. It is total: a guest may pass any
/// two values, and a host function has no way to refuse them.
pub fn add_internal(a: i32, b: i32) -> (r: i32)
    ensures
        r == sum32(a as int, b as int),
        i32::MIN <= a + b <= i32::MAX ==> r == a + b,
{
    a.wrapping_add(b)
}

/// A capability that the host grants to guest code. Each is a pure function
/// of its arguments and keeps nothing between calls.
#[derive(Clone, Copy, Debug, PartialEq, Eq, Structural)]
pub enum HostFunction {
    /// Adds two 32-bit integers.
    Add,
}

impl HostFunction {
    /// What a call returns.
    pub open spec fn apply(self, a: int, b: int) -> int {
        match self {
            HostFunction::Add => sum32(a, b),
        }
    }

    /// Runs the function on the arguments that the guest passed.
    pub fn call(self, a: i32, b: i32) -> (r: i32)
        ensures
            r == self.apply(a as int, b as int),
    {
        match self {
            HostFunction::Add => add_internal(a, b),
        }
    }
}

/// The signature that every host function has: two 32-bit integers in, one
/// 32-bit integer out.
pub open spec fn host_signature() -> SignatureView {
    SignatureView {
        params: seq![ValueKind::I32, ValueKind::I32],
        results: seq![ValueKind::I32],
    }
}

/// Whether a signature is the one that host functions have.
pub fn is_host_signature(signature: &Signature) -> (r: bool)
    ensures
        r == (signature@ == host_signature()),
{
    let r = signature.params.len() == 2 && signature.params[0] == ValueKind::I32
        && signature.params[1] == ValueKind::I32 && signature.results.len() == 1
        && signature.results[0] == ValueKind::I32;
    proof {
        if r {
            assert(signature@.params =~= host_signature().params);
            assert(signature@.results =~= host_signature().results);
        }
    }
    r
}

/// The namespace of the functions that the host offers.
pub const HOST_NAMESPACE: &'static str = "host";

/// The name under which the host offers addition.
pub const ADD_NAME: &'static str = "add";

/// A namespace and a name: what an import is looked up by.
pub type ImportKey = (Seq<char>, Seq<char>);

/// One entry of the registry.
struct HostImport {
    namespace: String,
    name: String,
    function: HostFunction,
}

/// The registry of host imports: a mapping from namespace and name to a host
/// function. It is built once and afterwards only read.
pub struct HostImportRegistry {
    entries: Vec<HostImport>,
}

spec fn key_at(entries: Seq<HostImport>, i: int) -> ImportKey {
    (entries[i].namespace@, entries[i].name@)
}

spec fn has_key(entries: Seq<HostImport>, key: ImportKey) -> bool {
    exists|i: int| 0 <= i < entries.len() && key_at(entries, i) == key
}

spec fn index_of(entries: Seq<HostImport>, key: ImportKey) -> int {
    choose|i: int| 0 <= i < entries.len() && key_at(entries, i) == key
}

spec fn distinct_keys(entries: Seq<HostImport>) -> bool {
    forall|i: int, j: int|
        0 <= i < j < entries.len() ==> key_at(entries, i) != key_at(entries, j)
}

impl HostImportRegistry {
    #[verifier::type_invariant]
    spec fn well_formed(self) -> bool {
        distinct_keys(self.entries@)
    }

    /// The registry as a mapping.
    pub closed spec fn view(&self) -> Map<ImportKey, HostFunction> {
        Map::new(
            |key: ImportKey| has_key(self.entries@, key),
            |key: ImportKey| self.entries@[index_of(self.entries@, key)].function,
        )
    }

    /// A registry without entries.
    pub fn new() -> (r: HostImportRegistry)
        ensures
            r@ == Map::<ImportKey, HostFunction>::empty(),
    {
        let r = HostImportRegistry { entries: Vec::new() };
        assert(r@ =~= Map::<ImportKey, HostFunction>::empty());
        r
    }

    /// The function registered under a namespace and a name, if there is one.
    pub fn lookup(&self, namespace: &String, name: &String) -> (r: Option<HostFunction>)
        ensures
            r == if self@.contains_key((namespace@, name@)) {
                Some(self@[(namespace@, name@)])
            } else {
                None::<HostFunction>
            },
    {
        proof {
            use_type_invariant(self);
        }
        let ghost key: ImportKey = (namespace@, name@);
        let mut i: usize = 0;
        while i < self.entries.len()
            invariant
                i <= self.entries.len(),
                key == (namespace@, name@),
                distinct_keys(self.entries@),
                forall|k: int| 0 <= k < i ==> key_at(self.entries@, k) != key,
            decreases self.entries.len() - i,
        {
            if self.entries[i].namespace == *namespace && self.entries[i].name == *name {
                proof {
                    assert(key_at(self.entries@, i as int) == key);
                    assert(has_key(self.entries@, key));
                    let j = index_of(self.entries@, key);
                    assert(j == i);
                }
                return Some(self.entries[i].function);
            }
            i += 1;
        }
        assert(!has_key(self.entries@, key));
        None
    }

    /// The registry with one more entry. A namespace and name that are taken
    /// keep their function: then the registry comes back as it was.
    pub fn with(self, namespace: String, name: String, function: HostFunction) -> (r:
        HostImportRegistry)
        ensures
            r@ == if self@.contains_key((namespace@, name@)) {
                self@
            } else {
                self@.insert((namespace@, name@), function)
            },
    {
        proof {
            use_type_invariant(&self);
        }
        if self.lookup(&namespace, &name).is_some() {
            return self;
        }
        let ghost key: ImportKey = (namespace@, name@);
        let ghost before = self.entries@;
        assert(!has_key(before, key));
        let mut entries = self.entries;
        entries.push(HostImport { namespace, name, function });
        proof {
            let after = entries@;
            assert(forall|i: int| 0 <= i < before.len() ==> key_at(after, i) == key_at(before, i));
            assert(key_at(after, before.len() as int) == key);
            assert forall|i: int, j: int| 0 <= i < j < after.len() implies key_at(after, i)
                != key_at(after, j) by {
                if j == before.len() {
                    assert(key_at(before, i) != key);
                }
            }
            assert forall|k: ImportKey| has_key(after, k) <==> (k == key || has_key(before, k)) by {
                if has_key(before, k) {
                    let i = index_of(before, k);
                    assert(key_at(after, i) == k);
                }
                if k == key {
                    assert(key_at(after, before.len() as int) == k);
                }
                if has_key(after, k) {
                    let i = index_of(after, k);
                    if i < before.len() {
                        assert(key_at(before, i) == k);
                    }
                }
            }
            assert forall|k: ImportKey| has_key(after, k) implies after[index_of(after, k)].function
                == (if k == key {
                function
            } else {
                before[index_of(before, k)].function
            }) by {
                let i = index_of(after, k);
                if k == key {
                    if i < before.len() {
                        assert(key_at(before, i) == key);
                    }
                } else {
                    assert(i < before.len());
                    assert(key_at(before, i) == k);
                    let j = index_of(before, k);
                    assert(i == j);
                }
            }
        }
        let r = HostImportRegistry { entries };
        assert(r@ =~= self@.insert(key, function));
        r
    }

    /// The registry that guests are offered: addition, under the host's
    /// namespace.
    pub fn standard() -> (r: HostImportRegistry)
        ensures
            r@ == Map::<ImportKey, HostFunction>::empty().insert(
                (HOST_NAMESPACE@, ADD_NAME@),
                HostFunction::Add,
            ),
    {
        HostImportRegistry::new().with(
            String::from_str(HOST_NAMESPACE),
            String::from_str(ADD_NAME),
            HostFunction::Add,
        )
    }
}

} // verus!
