//! Function slots and the fallback-aware symbol loader.
//!
//! Native code addresses are held as plain `usize` values, with `0` standing
//! for the null address that a resolver returns for an unknown symbol.
use vstd::prelude::*;

verus! {

/// The store for a single binding: an address and whether it was resolved.
///
/// An unresolved slot holds the address of the panic stub, so that calling it
/// halts with a diagnostic rather than jumping to the null address.
#[derive(Clone, Copy, Debug, PartialEq, Eq)]
pub struct FnPtr {
    /// The address used when calling the function.
    pub f: usize,
    /// True if `f` is a genuinely resolved symbol, false if it is the panic stub.
    pub is_loaded: bool,
}

impl FnPtr {
    /// Well-formed with respect to the panic stub at address `stub`: a resolved
    /// slot holds a non-null address, an unresolved one holds the stub.
    pub open spec fn wf(&self, stub: usize) -> bool {
        &&& self.f != 0
        &&& !self.is_loaded ==> self.f == stub
    }

    /// Creates a `FnPtr` from a load attempt: a null address becomes the stub.
    pub fn new(ptr: usize, stub: usize) -> (r: FnPtr)
        requires
            stub != 0,
        ensures
            r.is_loaded == (ptr != 0),
            r.is_loaded ==> r.f == ptr,
            !r.is_loaded ==> r.f == stub,
            r.wf(stub),
    {
        if ptr == 0 {
            FnPtr { f: stub, is_loaded: false }
        } else {
            FnPtr { f: ptr, is_loaded: true }
        }
    }

    /// Returns `true` if the function has been successfully loaded.
    ///
    /// If it returns `false`, calling the corresponding function will fail.
    pub fn is_loaded(&self) -> (r: bool)
        ensures
            r == self.is_loaded,
    {
        self.is_loaded
    }
}

/// What a resolver `loadfn` may have returned for `name`.
pub open spec fn resolves_to<F: Fn(&'static str) -> usize>(
    loadfn: F,
    name: &'static str,
    addr: usize,
) -> bool {
    call_ensures(loadfn, (name,), addr)
}

/// The outcome of resolving `symbol` and then `fallbacks` in order, stopping at
/// the first non-null address: either `addr` is non-null and came from the
/// primary name, or from fallback `k` after the primary name and all fallbacks
/// before `k` returned null; or `addr` is null and every name returned null.
pub open spec fn resolution<F: Fn(&'static str) -> usize>(
    loadfn: F,
    symbol: &'static str,
    fallbacks: Seq<&'static str>,
    addr: usize,
) -> bool {
    if addr != 0 {
        resolves_to(loadfn, symbol, addr) || (resolves_to(loadfn, symbol, 0) && exists|k: int|
            0 <= k < fallbacks.len() && resolves_to(loadfn, fallbacks[k], addr) && (forall|j: int|
                0 <= j < k ==> resolves_to(loadfn, #[trigger] fallbacks[j], 0)))
    } else {
        resolves_to(loadfn, symbol, 0) && forall|j: int|
            0 <= j < fallbacks.len() ==> resolves_to(loadfn, #[trigger] fallbacks[j], 0)
    }
}

/// An entry point none of whose names resolve gets the null address, and so
/// (through `FnPtr::new`) an unresolved slot holding the panic stub.
pub proof fn lemma_unresolvable_is_null<F: Fn(&'static str) -> usize>(
    loadfn: F,
    symbol: &'static str,
    fallbacks: Seq<&'static str>,
    addr: usize,
)
    requires
        resolution(loadfn, symbol, fallbacks, addr),
        forall|a: usize| resolves_to(loadfn, symbol, a) ==> a == 0,
        forall|j: int, a: usize|
            0 <= j < fallbacks.len() && #[trigger] resolves_to(loadfn, fallbacks[j], a) ==> a == 0,
    ensures
        addr == 0,
{
    if addr != 0 {
        if !resolves_to(loadfn, symbol, addr) {
            let k = choose|k: int|
                0 <= k < fallbacks.len() && resolves_to(loadfn, fallbacks[k], addr) && (forall|j: int|
                    0 <= j < k ==> resolves_to(loadfn, #[trigger] fallbacks[j], 0));
            assert(resolves_to(loadfn, fallbacks[k], addr));
        }
    }
}

/// When the primary name and the fallbacks before `k` resolve to null and
/// fallback `k` resolves to `target` alone, resolution yields `target`: the
/// names are tried in order and the first success wins.
pub proof fn lemma_first_success_wins<F: Fn(&'static str) -> usize>(
    loadfn: F,
    symbol: &'static str,
    fallbacks: Seq<&'static str>,
    k: int,
    target: usize,
    addr: usize,
)
    requires
        resolution(loadfn, symbol, fallbacks, addr),
        0 <= k < fallbacks.len(),
        target != 0,
        forall|a: usize| resolves_to(loadfn, symbol, a) ==> a == 0,
        forall|j: int, a: usize|
            0 <= j < k && #[trigger] resolves_to(loadfn, fallbacks[j], a) ==> a == 0,
        forall|a: usize| resolves_to(loadfn, fallbacks[k], a) ==> a == target,
    ensures
        addr == target,
{
    if addr == 0 {
        assert(resolves_to(loadfn, fallbacks[k], 0));
    } else {
        let m = choose|m: int|
            0 <= m < fallbacks.len() && resolves_to(loadfn, fallbacks[m], addr) && (forall|j: int|
                0 <= j < m ==> resolves_to(loadfn, #[trigger] fallbacks[j], 0));
        if m < k {
            assert(resolves_to(loadfn, fallbacks[m], addr));
        } else if m > k {
            assert(resolves_to(loadfn, fallbacks[k], 0));
        }
    }
}

/// Resolves one entry point: asks `loadfn` for the primary `symbol`, and if
/// that yields null, for each of `fallbacks` in order until one is non-null.
/// Returns null if every name fails.
pub fn do_metaloadfn<F: Fn(&'static str) -> usize>(
    loadfn: &F,
    symbol: &'static str,
    fallbacks: &Vec<&'static str>,
) -> (r: usize)
    requires
        forall|s: &'static str| call_requires(*loadfn, (s,)),
    ensures
        resolution(*loadfn, symbol, fallbacks@, r),
{
    let mut ptr = loadfn(symbol);
    if ptr == 0 {
        let mut i: usize = 0;
        while i < fallbacks.len()
            invariant
                i <= fallbacks.len(),
                forall|s: &'static str| call_requires(*loadfn, (s,)),
                resolves_to(*loadfn, symbol, 0),
                ptr == 0,
                forall|j: int| 0 <= j < i ==> resolves_to(*loadfn, #[trigger] fallbacks@[j], 0),
            decreases fallbacks.len() - i,
        {
            let p = loadfn(fallbacks[i]);
            if p != 0 {
                assert(resolves_to(*loadfn, fallbacks@[i as int], p));
                return p;
            }
            i = i + 1;
        }
    }
    ptr
}

} // verus!
