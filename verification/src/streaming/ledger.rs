//! The subscription ledger: the de-duplicated, insertion-ordered record of
//! every account identifier the caller has asked to watch.  It lives for
//! the whole session handle — not one physical connection — and is replayed
//! after every successful redial, which is what makes reconnection
//! transparent to the caller.

use crate::streaming::text::str_eq;
use vstd::prelude::*;

verus! {

/// Inserting into the ledger: a no-op when the identifier is already
/// present, otherwise appended at the end.
pub open spec fn spec_ledger_insert(l: Seq<Seq<char>>, id: Seq<char>) -> Seq<Seq<char>> {
    if l.contains(id) {
        l
    } else {
        l.push(id)
    }
}

/// Law: subscribing to the same identifier twice leaves the ledger exactly
/// as one subscription left it.
pub proof fn lemma_ledger_insert_idempotent(l: Seq<Seq<char>>, id: Seq<char>)
    ensures
        spec_ledger_insert(spec_ledger_insert(l, id), id) == spec_ledger_insert(l, id),
{
    if !l.contains(id) {
        assert(l.push(id)[l.len() as int] == id);
        assert(l.push(id).contains(id));
    }
}

/// The record of account identifiers a caller has asked to stream.
pub struct SubscriptionLedger {
    entries: Vec<String>,
}

impl View for SubscriptionLedger {
    type V = Seq<Seq<char>>;

    closed spec fn view(&self) -> Seq<Seq<char>> {
        self.entries@.map_values(|s: String| s@)
    }
}

impl SubscriptionLedger {
    /// No duplicate identifiers, ever.
    pub open spec fn wf(&self) -> bool {
        forall|i: int, j: int|
            0 <= i < j < self@.len() ==> self@[i] != self@[j]
    }

    /// An empty ledger.
    pub fn new() -> (r: SubscriptionLedger)
        ensures
            r@ == Seq::<Seq<char>>::empty(),
            r.wf(),
    {
        let r = SubscriptionLedger { entries: Vec::new() };
        assert(r@ =~= Seq::<Seq<char>>::empty());
        r
    }

    /// How many identifiers the ledger holds.
    pub fn len(&self) -> (r: usize)
        ensures
            r == self@.len(),
    {
        self.entries.len()
    }

    /// Whether `id` is already recorded.
    pub fn contains(&self, id: &str) -> (r: bool)
        ensures
            r == self@.contains(id@),
    {
        let n = self.entries.len();
        let mut i: usize = 0;
        while i < n
            invariant
                i <= n,
                n == self@.len(),
                forall|j: int| 0 <= j < i ==> self@[j] != id@,
            decreases n - i,
        {
            if str_eq(self.entries[i].as_str(), id) {
                assert(self@[i as int] == id@);
                return true;
            }
            i = i + 1;
        }
        assert(forall|j: int| 0 <= j < self@.len() ==> self@[j] != id@);
        false
    }

    /// Records `id`.  Returns whether the ledger grew; recording an
    /// already-present identifier is a no-op for the ledger.
    pub fn subscribe(&mut self, id: String) -> (added: bool)
        requires
            old(self).wf(),
        ensures
            final(self)@ == spec_ledger_insert(old(self)@, id@),
            added == !old(self)@.contains(id@),
            final(self).wf(),
    {
        if self.contains(id.as_str()) {
            false
        } else {
            let ghost before = self@;
            self.entries.push(id);
            assert(self@ =~= before.push(id@));
            assert(self@.drop_last() =~= before);
            true
        }
    }

    /// A copy of the recorded identifiers, in insertion order — the payload
    /// replayed in a `connect` action after every successful redial.
    pub fn snapshot(&self) -> (r: Vec<String>)
        ensures
            r@.map_values(|s: String| s@) == self@,
    {
        let n = self.entries.len();
        let mut out: Vec<String> = Vec::new();
        let mut i: usize = 0;
        while i < n
            invariant
                i <= n,
                n == self.entries@.len(),
                out@.len() == i,
                forall|j: int| 0 <= j < i ==> out@[j]@ == self@[j],
            decreases n - i,
        {
            out.push(self.entries[i].clone());
            i = i + 1;
        }
        assert(out@.map_values(|s: String| s@) =~= self@);
        out
    }
}

} // verus!
