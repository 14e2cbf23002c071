//! The dispatch table: one slot per entry point, plus the profiler's call and
//! error counters, which belong to the table rather than to the process.
use vstd::prelude::*;
use crate::slot::{FnPtr, do_metaloadfn, resolution};
use crate::status::{NO_ERROR, StatusDescription, decode_status, status_name, status_explanation};

verus! {

/// How one entry point is looked up: its identifier, the native symbol tried
/// first, and the alternate symbols tried after it, in order.
pub struct EntryPoint {
    pub ident: &'static str,
    pub symbol: &'static str,
    pub fallbacks: Vec<&'static str>,
}

/// A counter after one increment; like an atomic add, it wraps at the top.
pub open spec fn bump(n: usize) -> usize {
    if n == usize::MAX {
        0
    } else {
        (n + 1) as usize
    }
}

/// The counters `(calls, errors)` after a call to an entry point that is
/// `audited` and whose follow-up error query returned `status`.
pub open spec fn status_step(counts: (usize, usize), audited: bool, status: u32) -> (usize, usize) {
    if !audited {
        counts
    } else if status == NO_ERROR {
        (bump(counts.0), counts.1)
    } else {
        (counts.0, bump(counts.1))
    }
}

/// The counters after a run of audited calls whose error queries returned
/// `statuses`, in that order.
pub open spec fn status_run(counts: (usize, usize), statuses: Seq<u32>) -> (usize, usize)
    decreases statuses.len(),
{
    if statuses.len() == 0 {
        counts
    } else {
        status_step(status_run(counts, statuses.drop_last()), true, statuses.last())
    }
}

/// An audited call moves exactly one counter up by one: the call counter when
/// the error query reports no error, the error counter otherwise. (A counter
/// already at `usize::MAX` wraps instead.)
pub proof fn lemma_audited_call_counts_once(counts: (usize, usize), status: u32)
    requires
        counts.0 < usize::MAX,
        counts.1 < usize::MAX,
    ensures
        status == NO_ERROR ==> status_step(counts, true, status) == ((counts.0 + 1) as usize, counts.1),
        status != NO_ERROR ==> status_step(counts, true, status) == (counts.0, (counts.1 + 1) as usize),
{
}

/// A call to the error-query entry point itself never changes either counter,
/// whatever status it reports.
pub proof fn lemma_error_query_uncounted(t: DispatchTable, status: u32)
    requires
        t.error_query() is Some,
    ensures
        status_step(t.counts(), t.audits(t.error_query()->0), status) == t.counts(),
{
}

/// Calls that all report no error, counted from a reset, leave the call
/// counter equal to their number and the error counter at zero: no update is
/// lost, however the calls were interleaved before being counted.
pub proof fn lemma_successful_calls_counted(statuses: Seq<u32>)
    requires
        statuses.len() <= usize::MAX,
        forall|i: int| 0 <= i < statuses.len() ==> statuses[i] == NO_ERROR,
    ensures
        status_run((0usize, 0usize), statuses) == (statuses.len() as usize, 0usize),
    decreases statuses.len(),
{
    if statuses.len() > 0 {
        let rest = statuses.drop_last();
        assert forall|i: int| 0 <= i < rest.len() implies rest[i] == NO_ERROR by {
            assert(rest[i] == statuses[i]);
        }
        lemma_successful_calls_counted(rest);
    }
}

/// The instrumented dispatch table.
pub struct DispatchTable {
    slots: Vec<FnPtr>,
    stub: usize,
    error_query: Option<usize>,
    call_count: usize,
    err_count: usize,
}

impl DispatchTable {
    /// The slots, one per entry point, in the order the entry points were given.
    pub closed spec fn slots(&self) -> Seq<FnPtr> {
        self.slots@
    }

    /// The address of the panic stub that unresolved slots hold.
    pub closed spec fn stub(&self) -> usize {
        self.stub
    }

    /// The index of the error-query entry point, if the table has one.
    pub closed spec fn error_query(&self) -> Option<usize> {
        self.error_query
    }

    /// The calls counted since the last reset as having reported no error.
    pub closed spec fn calls(&self) -> usize {
        self.call_count
    }

    /// The calls counted since the last reset as having reported an error.
    pub closed spec fn errors(&self) -> usize {
        self.err_count
    }

    /// Both counters, as a pair `(calls, errors)`.
    pub open spec fn counts(&self) -> (usize, usize) {
        (self.calls(), self.errors())
    }

    /// Whether calls to `entry` are followed by an error query and counted:
    /// the table has an error-query entry point and `entry` is not it.
    pub open spec fn audits(&self, entry: usize) -> bool {
        match self.error_query() {
            Some(q) => q != entry,
            None => false,
        }
    }

    /// The stub is non-null, every slot is well formed for it, and the error
    /// query, if any, is one of the slots.
    pub open spec fn wf(&self) -> bool {
        &&& self.stub() != 0
        &&& forall|i: int| 0 <= i < self.slots().len() ==> (#[trigger] self.slots()[i]).wf(self.stub())
        &&& match self.error_query() {
            Some(q) => q < self.slots().len(),
            None => true,
        }
    }

    /// Loads every entry point through `loadfn`: each slot holds the address
    /// of the first of its symbol and fallbacks that resolves, or the panic
    /// stub `stub` if none does. The counters start at zero.
    pub fn load_with<F: Fn(&'static str) -> usize>(
        loadfn: &F,
        entries: &Vec<EntryPoint>,
        error_query: Option<usize>,
        stub: usize,
    ) -> (r: DispatchTable)
        requires
            forall|s: &'static str| call_requires(*loadfn, (s,)),
            stub != 0,
            match error_query {
                Some(q) => q < entries.len(),
                None => true,
            },
        ensures
            r.wf(),
            r.stub() == stub,
            r.error_query() == error_query,
            r.counts() == (0usize, 0usize),
            r.slots().len() == entries.len(),
            forall|i: int|
                0 <= i < entries.len() ==> {
                    let s = #[trigger] r.slots()[i];
                    &&& s.is_loaded ==> resolution(*loadfn, entries@[i].symbol, entries@[i].fallbacks@, s.f)
                    &&& !s.is_loaded ==> resolution(*loadfn, entries@[i].symbol, entries@[i].fallbacks@, 0)
                    &&& !s.is_loaded ==> s.f == stub
                },
    {
        let mut slots: Vec<FnPtr> = Vec::new();
        let mut i: usize = 0;
        while i < entries.len()
            invariant
                forall|s: &'static str| call_requires(*loadfn, (s,)),
                stub != 0,
                i <= entries.len(),
                slots@.len() == i,
                forall|k: int|
                    0 <= k < i ==> {
                        let s = #[trigger] slots@[k];
                        &&& s.wf(stub)
                        &&& s.is_loaded ==> resolution(*loadfn, entries@[k].symbol, entries@[k].fallbacks@, s.f)
                        &&& !s.is_loaded ==> resolution(*loadfn, entries@[k].symbol, entries@[k].fallbacks@, 0)
                    },
            decreases entries.len() - i,
        {
            let e = &entries[i];
            let ptr = do_metaloadfn(loadfn, e.symbol, &e.fallbacks);
            slots.push(FnPtr::new(ptr, stub));
            i = i + 1;
        }
        DispatchTable { slots, stub, error_query, call_count: 0, err_count: 0 }
    }

    /// The number of entry points.
    pub fn len(&self) -> (r: usize)
        ensures
            r == self.slots().len(),
    {
        self.slots.len()
    }

    /// The slot of entry point `entry`.
    pub fn slot(&self, entry: usize) -> (r: FnPtr)
        requires
            entry < self.slots().len(),
        ensures
            r == self.slots()[entry as int],
    {
        self.slots[entry]
    }

    /// The index of the error-query entry point, if the table has one.
    pub fn error_query_entry(&self) -> (r: Option<usize>)
        ensures
            r == self.error_query(),
    {
        self.error_query
    }

    /// Whether calls to `entry` are followed by an error query and counted.
    pub fn is_audited(&self, entry: usize) -> (r: bool)
        ensures
            r == self.audits(entry),
    {
        match self.error_query {
            Some(q) => q != entry,
            None => false,
        }
    }

    /// Resets both counters to zero.
    pub fn profiler_reset(&mut self)
        ensures
            final(self).counts() == (0usize, 0usize),
            final(self).slots() == old(self).slots(),
            final(self).stub() == old(self).stub(),
            final(self).error_query() == old(self).error_query(),
    {
        self.call_count = 0;
        self.err_count = 0;
    }

    /// The number of calls since the last reset that reported no error.
    pub fn profiler_call_count(&self) -> (r: usize)
        ensures
            r == self.calls(),
    {
        self.call_count
    }

    /// The number of calls since the last reset that reported an error.
    pub fn profiler_err_count(&self) -> (r: usize)
        ensures
            r == self.errors(),
    {
        self.err_count
    }

    /// Records the outcome of a call to `entry`, whose error query returned
    /// `status`. A call that is not audited changes nothing. An audited call
    /// counts as a call when `status` is `NO_ERROR`; otherwise it counts as an
    /// error, and the decoded status is returned for the diagnostic.
    pub fn record_status(&mut self, entry: usize, status: u32) -> (r: Option<StatusDescription>)
        ensures
            final(self).counts() == status_step(old(self).counts(), old(self).audits(entry), status),
            final(self).slots() == old(self).slots(),
            final(self).stub() == old(self).stub(),
            final(self).error_query() == old(self).error_query(),
            r.is_some() == (old(self).audits(entry) && status != NO_ERROR),
            r matches Some(d) ==> d.name@ == status_name(status) && d.explanation@
                == status_explanation(status),
    {
        if !self.is_audited(entry) {
            return None;
        }
        if status == NO_ERROR {
            self.call_count = if self.call_count == usize::MAX { 0 } else { self.call_count + 1 };
            None
        } else {
            self.err_count = if self.err_count == usize::MAX { 0 } else { self.err_count + 1 };
            Some(decode_status(status))
        }
    }
}

} // verus!
