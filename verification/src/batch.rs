//! Batch/trust coordination: answers, for each inbound offer, whether it
//! is accepted and where the bytes land, prompting the user at most once
//! per batch and not at all for trusted senders.
//!
//! A batch is the set of offers sharing one batch identifier (an offer
//! without one forms a singleton batch under its own transfer id). The
//! first offer of a batch produces a decision — by trust-based
//! auto-acceptance or by an explicit user response — and that decision is
//! stored and reused verbatim for every later offer of the same batch,
//! including rejections: a rejected batch stays rejected.

use vstd::prelude::*;

verus! {

/// A user's answer to one transfer prompt, as delivered by the UI layer.
pub struct RespondTransferArgs {
    pub transfer_id: String,
    pub accept: bool,
    /// `Some(true)` when the user also ticked "always trust this device".
    pub trust: Option<bool>,
}

/// Persisted application settings.
pub struct AppSettings {
    pub auto_accept_trusted: bool,
}

impl Default for AppSettings {
    /// Auto-acceptance is off until the user opts in.
    fn default() -> (r: AppSettings)
        ensures
            !r.auto_accept_trusted,
    {
        AppSettings { auto_accept_trusted: false }
    }
}

/// The stored outcome for one batch: whether it was accepted, and the
/// destination directory when it was.
pub struct BatchDecision {
    pub batch_id: String,
    pub accepted: bool,
    pub save_dir: Option<String>,
}

impl BatchDecision {
    /// A field-for-field copy.
    pub fn duplicate(&self) -> (r: BatchDecision)
        ensures
            r == *self,
    {
        BatchDecision {
            batch_id: self.batch_id.clone(),
            accepted: self.accepted,
            save_dir: match &self.save_dir {
                Some(d) => Some(d.clone()),
                None => None,
            },
        }
    }
}

/// The persisted set of peer addresses exempted from the accept prompt.
pub struct TrustSet {
    pub ips: Vec<String>,
}

impl TrustSet {
    /// Addresses are listed once.
    pub open spec fn wf(self) -> bool {
        forall|i: int, j: int| 0 <= i < j < self.ips@.len() ==> self.ips@[i]@ != self.ips@[j]@
    }

    /// Whether the address is trusted.
    pub open spec fn spec_has(self, ip: Seq<char>) -> bool {
        exists|i: int| 0 <= i < self.ips@.len() && self.ips@[i]@ == ip
    }

    /// An empty trust set.
    pub fn new() -> (r: TrustSet)
        ensures
            r.wf(),
            r.ips@.len() == 0,
    {
        TrustSet { ips: Vec::new() }
    }

    /// A trust set over the given addresses, deduplicated.
    pub fn from_list(list: Vec<String>) -> (r: TrustSet)
        ensures
            r.wf(),
            forall|ip: Seq<char>|
                #[trigger] r.spec_has(ip) <==> exists|i: int|
                    0 <= i < list@.len() && list@[i]@ == ip,
    {
        let mut r = TrustSet::new();
        let n: usize = list.len();
        let mut i: usize = 0;
        while i < n
            invariant
                r.wf(),
                n == list@.len(),
                i <= n,
                forall|ip: Seq<char>|
                    #[trigger] r.spec_has(ip) <==> exists|k: int| 0 <= k < i && list@[k]@ == ip,
            decreases n - i,
        {
            r.add_trusted_device_ip(&list[i]);
            proof {
                assert forall|ip: Seq<char>| #[trigger] r.spec_has(ip) implies exists|k: int|
                    0 <= k < i + 1 && list@[k]@ == ip by {
                    if ip != list@[i as int]@ {
                        assert(exists|k: int| 0 <= k < i && list@[k]@ == ip);
                    }
                }
            }
            i = i + 1;
        }
        r
    }

    /// Membership test by address.
    pub fn contains_ip(&self, ip: &str) -> (r: bool)
        ensures
            r == self.spec_has(ip@),
    {
        let n: usize = self.ips.len();
        let mut i: usize = 0;
        while i < n
            invariant
                n == self.ips@.len(),
                i <= n,
                forall|k: int| 0 <= k < i ==> self.ips@[k]@ != ip@,
            decreases n - i,
        {
            if crate::strutil::str_eq(self.ips[i].as_str(), ip) {
                return true;
            }
            i = i + 1;
        }
        false
    }

    /// Adds an address unless it is already present (idempotent).
    pub fn add_trusted_device_ip(&mut self, ip: &str)
        requires
            old(self).wf(),
        ensures
            final(self).wf(),
            final(self).spec_has(ip@),
            old(self).spec_has(ip@) ==> *final(self) == *old(self),
            forall|o: Seq<char>| #[trigger] final(self).spec_has(o) <==> old(self).spec_has(o) || o == ip@,
    {
        if self.contains_ip(ip) {
            return ;
        }
        let ghost prev = self.ips@;
        self.ips.push(ip.to_owned());
        proof {
            assert(self.ips@.last()@ == ip@);
            assert(self.ips@[prev.len() as int]@ == ip@);
            assert forall|o: Seq<char>| #[trigger] final(self).spec_has(o) implies old(self).spec_has(o) || o == ip@ by {
                let w = choose|w: int|
                    0 <= w < self.ips@.len() && self.ips@[w]@ == o;
                if w < prev.len() {
                    assert(prev[w]@ == o);
                }
            }
            assert forall|o: Seq<char>| old(self).spec_has(o) implies #[trigger] final(self).spec_has(o) by {
                let w = choose|w: int| 0 <= w < prev.len() && prev[w]@ == o;
                assert(self.ips@[w]@ == o);
            }
        }
    }

    /// Removes an address; the rest survive.
    pub fn remove_trusted_device_ip(&mut self, ip: &str)
        requires
            old(self).wf(),
        ensures
            final(self).wf(),
            forall|o: Seq<char>|
                #[trigger] final(self).spec_has(o) <==> old(self).spec_has(o) && o != ip@,
    {
        let n: usize = self.ips.len();
        let mut kept: Vec<String> = Vec::new();
        let mut i: usize = 0;
        while i < n
            invariant
                old(self).wf(),
                *self == *old(self),
                n == self.ips@.len(),
                i <= n,
                forall|a: int, b: int| 0 <= a < b < kept@.len() ==> kept@[a]@ != kept@[b]@,
                forall|j: int|
                    0 <= j < kept@.len() ==> (#[trigger] kept@[j])@ != ip@ && exists|w: int|
                        0 <= w < i && self.ips@[w]@ == kept@[j]@,
                forall|w: int|
                    0 <= w < i && (#[trigger] self.ips@[w])@ != ip@ ==> exists|j: int|
                        0 <= j < kept@.len() && kept@[j]@ == self.ips@[w]@,
            decreases n - i,
        {
            if !crate::strutil::str_eq(self.ips[i].as_str(), ip) {
                let ghost prev = kept@;
                kept.push(self.ips[i].clone());
                proof {
                    assert(kept@[prev.len() as int]@ == self.ips@[i as int]@);
                    assert forall|a: int, b: int| 0 <= a < b < kept@.len() implies kept@[a]@
                        != kept@[b]@ by {
                        if b == prev.len() {
                            let wa = choose|w: int| 0 <= w < i && self.ips@[w]@ == prev[a]@;
                            assert(self.ips@[wa]@ != self.ips@[i as int]@);
                        }
                    }
                    assert forall|w: int|
                        0 <= w < i + 1 && (#[trigger] self.ips@[w])@ != ip@ implies exists|j: int|
                        0 <= j < kept@.len() && kept@[j]@ == self.ips@[w]@ by {
                        if w < i {
                            let j = choose|j: int| 0 <= j < prev.len() && prev[j]@
                                == self.ips@[w]@;
                            assert(kept@[j]@ == self.ips@[w]@);
                        } else {
                            assert(kept@[prev.len() as int]@ == self.ips@[w]@);
                        }
                    }
                }
            }
            i = i + 1;
        }
        self.ips = kept;
        proof {
            assert forall|o: Seq<char>| #[trigger] final(self).spec_has(o) implies old(self).spec_has(o) && o != ip@ by {
                let j = choose|j: int| 0 <= j < self.ips@.len() && self.ips@[j]@ == o;
                let w = choose|w: int| 0 <= w < n && old(self).ips@[w]@ == self.ips@[j]@;
                assert(old(self).ips@[w]@ == o);
            }
            assert forall|o: Seq<char>| old(self).spec_has(o) && o != ip@ implies #[trigger] final(self).spec_has(o) by {
                let w = choose|w: int| 0 <= w < n && old(self).ips@[w]@ == o;
                let j = choose|j: int| 0 <= j < self.ips@.len() && self.ips@[j]@ == old(self).ips@[w]@;
                assert(self.ips@[j]@ == o);
            }
        }
    }

    /// The trusted addresses, copied for presentation or persistence.
    pub fn list_trusted_devices(&self) -> (r: Vec<String>)
        ensures
            r@ == self.ips@,
    {
        let n: usize = self.ips.len();
        let mut r: Vec<String> = Vec::new();
        let mut i: usize = 0;
        while i < n
            invariant
                n == self.ips@.len(),
                i <= n,
                r@ == self.ips@.subrange(0, i as int),
            decreases n - i,
        {
            r.push(self.ips[i].clone());
            proof {
                assert(r@ =~= self.ips@.subrange(0, i + 1));
            }
            i = i + 1;
        }
        proof {
            assert(r@ =~= self.ips@);
        }
        r
    }
}

/// What the connection handler must do next for an inbound offer.
pub enum ResolveStep {
    /// A decision for this batch already exists and is reused verbatim;
    /// no prompt of any kind fires.
    Decided { accepted: bool, save_dir: Option<String> },
    /// Trusted sender with auto-acceptance on: acceptance is forced, but
    /// the destination-folder choice is still required.
    NeedFolder,
    /// Ask the user whether to accept, then (if accepted) for a folder.
    NeedPrompt,
}

/// The table of per-batch decisions, keyed by batch id.
pub struct DecisionTable {
    pub entries: Vec<BatchDecision>,
}

impl DecisionTable {
    /// Batch ids are unique.
    pub open spec fn wf(self) -> bool {
        forall|i: int, j: int|
            0 <= i < j < self.entries@.len() ==> self.entries@[i].batch_id@
                != self.entries@[j].batch_id@
    }

    /// The stored decision for a batch, if any.
    pub open spec fn spec_lookup(self, batch_id: Seq<char>) -> Option<BatchDecision> {
        if exists|i: int| 0 <= i < self.entries@.len() && self.entries@[i].batch_id@ == batch_id {
            Some(
                self.entries@[choose|i: int|
                    0 <= i < self.entries@.len() && self.entries@[i].batch_id@ == batch_id],
            )
        } else {
            None
        }
    }

    /// An empty table.
    pub fn new() -> (r: DecisionTable)
        ensures
            r.wf(),
            r.entries@.len() == 0,
    {
        DecisionTable { entries: Vec::new() }
    }

    /// The stored decision for a batch, copied.
    pub fn lookup(&self, batch_id: &str) -> (r: Option<BatchDecision>)
        requires
            self.wf(),
        ensures
            r == self.spec_lookup(batch_id@),
    {
        let n: usize = self.entries.len();
        let mut i: usize = 0;
        while i < n
            invariant
                self.wf(),
                n == self.entries@.len(),
                i <= n,
                forall|k: int| 0 <= k < i ==> self.entries@[k].batch_id@ != batch_id@,
            decreases n - i,
        {
            if crate::strutil::str_eq(self.entries[i].batch_id.as_str(), batch_id) {
                let r = self.entries[i].duplicate();
                proof {
                    let w = choose|w: int|
                        0 <= w < self.entries@.len() && self.entries@[w].batch_id@ == batch_id@;
                    assert(w == i);
                }
                return Some(r);
            }
            i = i + 1;
        }
        None
    }

    /// Stores the decision for a batch. A decision already present for
    /// the same batch is left untouched: the first decision wins, and
    /// every later offer of the batch observes it.
    pub fn record(&mut self, d: BatchDecision)
        requires
            old(self).wf(),
        ensures
            final(self).wf(),
            old(self).spec_lookup(d.batch_id@) is Some ==> *final(self) == *old(self),
            old(self).spec_lookup(d.batch_id@) is None ==> final(self).spec_lookup(d.batch_id@)
                == Some(d),
            forall|o: Seq<char>|
                o != d.batch_id@ ==> #[trigger] final(self).spec_lookup(o) == old(self).spec_lookup(o),
    {
        let n: usize = self.entries.len();
        let mut i: usize = 0;
        while i < n
            invariant
                old(self).wf(),
                *self == *old(self),
                n == self.entries@.len(),
                i <= n,
                forall|k: int| 0 <= k < i ==> self.entries@[k].batch_id@ != d.batch_id@,
            decreases n - i,
        {
            if crate::strutil::str_eq(self.entries[i].batch_id.as_str(), d.batch_id.as_str()) {
                proof {
                    assert(exists|w: int|
                        0 <= w < self.entries@.len() && self.entries@[w].batch_id@
                            == d.batch_id@);
                }
                return ;
            }
            i = i + 1;
        }
        let ghost prev = self.entries@;
        self.entries.push(d);
        proof {
            assert(old(self).spec_lookup(d.batch_id@) is None);
            assert(self.entries@[prev.len() as int] == d);
            let w = choose|w: int|
                0 <= w < self.entries@.len() && self.entries@[w].batch_id@ == d.batch_id@;
            assert(w == prev.len());
            assert forall|o: Seq<char>| o != d.batch_id@ implies #[trigger] final(self).spec_lookup(o) == old(self).spec_lookup(o) by {
                if exists|k: int| 0 <= k < prev.len() && prev[k].batch_id@ == o {
                    let k = choose|k: int| 0 <= k < prev.len() && prev[k].batch_id@ == o;
                    assert(self.entries@[k].batch_id@ == o);
                    let k2 = choose|k2: int|
                        0 <= k2 < self.entries@.len() && self.entries@[k2].batch_id@ == o;
                    assert(k2 == k);
                } else {
                    if exists|k: int|
                        0 <= k < self.entries@.len() && self.entries@[k].batch_id@ == o {
                        let k = choose|k: int|
                            0 <= k < self.entries@.len() && self.entries@[k].batch_id@ == o;
                        assert(k == prev.len());
                        assert(false);
                    }
                }
            }
        }
    }
}

impl DecisionTable {
    /// Evicts the stored decision of a batch. Decisions are kept for the
    /// life of the batch, so that concurrent and later offers observe
    /// them; once every file of the batch is accounted for, the entry is
    /// removed here, keeping the table from growing without bound.
    pub fn evict(&mut self, batch_id: &str)
        requires
            old(self).wf(),
        ensures
            final(self).wf(),
            final(self).spec_lookup(batch_id@) is None,
            forall|o: Seq<char>|
                o != batch_id@ ==> #[trigger] final(self).spec_lookup(o) == old(self).spec_lookup(
                    o,
                ),
    {
        let n: usize = self.entries.len();
        let mut i: usize = 0;
        while i < n
            invariant
                old(self).wf(),
                *self == *old(self),
                n == self.entries@.len(),
                i <= n,
                forall|k: int| 0 <= k < i ==> self.entries@[k].batch_id@ != batch_id@,
            decreases n - i,
        {
            if crate::strutil::str_eq(self.entries[i].batch_id.as_str(), batch_id) {
                let ghost prev = self.entries@;
                let _removed = self.entries.remove(i);
                proof {
                    assert forall|k: int|
                        0 <= k < self.entries@.len() implies self.entries@[k].batch_id@
                        != batch_id@ by {
                        if k < i {
                            assert(self.entries@[k] == prev[k]);
                        } else {
                            assert(self.entries@[k] == prev[k + 1]);
                        }
                    }
                    assert forall|o: Seq<char>| o != batch_id@ implies #[trigger] final(self).spec_lookup(o) == old(self).spec_lookup(o) by {
                        if exists|k: int| 0 <= k < prev.len() && prev[k].batch_id@ == o {
                            let k = choose|k: int| 0 <= k < prev.len() && prev[k].batch_id@ == o;
                            if k < i {
                                assert(self.entries@[k] == prev[k]);
                                let k2 = choose|k2: int|
                                    0 <= k2 < self.entries@.len() && self.entries@[k2].batch_id@
                                        == o;
                                assert(prev[if k2 < i {
                                    k2
                                } else {
                                    k2 + 1
                                }].batch_id@ == o);
                            } else {
                                assert(k != i);
                                assert(self.entries@[k - 1] == prev[k]);
                                let k2 = choose|k2: int|
                                    0 <= k2 < self.entries@.len() && self.entries@[k2].batch_id@
                                        == o;
                                assert(prev[if k2 < i {
                                    k2
                                } else {
                                    k2 + 1
                                }].batch_id@ == o);
                            }
                        } else {
                            if exists|k: int|
                                0 <= k < self.entries@.len() && self.entries@[k].batch_id@ == o {
                                let k = choose|k: int|
                                    0 <= k < self.entries@.len() && self.entries@[k].batch_id@
                                        == o;
                                assert(prev[if k < i {
                                    k
                                } else {
                                    k + 1
                                }].batch_id@ == o);
                                assert(false);
                            }
                        }
                    }
                }
                return ;
            }
            i = i + 1;
        }
    }
}

/// Pending accept/reject answers from the user, keyed by transfer id: a
/// connection waiting on its prompt blocks until its answer appears here
/// (or its wait times out), then removes it.
pub struct ResponseTable {
    pub entries: Vec<(String, bool)>,
}

impl ResponseTable {
    /// Transfer ids are unique.
    pub open spec fn wf(self) -> bool {
        forall|i: int, j: int|
            0 <= i < j < self.entries@.len() ==> self.entries@[i].0@ != self.entries@[j].0@
    }

    /// The stored answer for a transfer, if any.
    pub open spec fn spec_get(self, transfer_id: Seq<char>) -> Option<bool> {
        if exists|i: int| 0 <= i < self.entries@.len() && self.entries@[i].0@ == transfer_id {
            Some(
                self.entries@[choose|i: int|
                    0 <= i < self.entries@.len() && self.entries@[i].0@ == transfer_id].1,
            )
        } else {
            None
        }
    }

    /// An empty table.
    pub fn new() -> (r: ResponseTable)
        ensures
            r.wf(),
            r.entries@.len() == 0,
    {
        ResponseTable { entries: Vec::new() }
    }

    /// Stores the user's answer for a transfer, replacing any earlier
    /// one.
    pub fn set(&mut self, transfer_id: &str, accept: bool)
        requires
            old(self).wf(),
        ensures
            final(self).wf(),
            final(self).spec_get(transfer_id@) == Some(accept),
            forall|o: Seq<char>|
                o != transfer_id@ ==> #[trigger] final(self).spec_get(o) == old(self).spec_get(o),
    {
        let n: usize = self.entries.len();
        let mut i: usize = 0;
        while i < n
            invariant
                old(self).wf(),
                *self == *old(self),
                n == self.entries@.len(),
                i <= n,
                forall|k: int| 0 <= k < i ==> self.entries@[k].0@ != transfer_id@,
            decreases n - i,
        {
            if crate::strutil::str_eq(self.entries[i].0.as_str(), transfer_id) {
                let ghost prev = self.entries@;
                let key = self.entries[i].0.clone();
                self.entries.set(i, (key, accept));
                proof {
                    assert(self.entries@[i as int].0@ == transfer_id@);
                    let w = choose|w: int|
                        0 <= w < self.entries@.len() && self.entries@[w].0@ == transfer_id@;
                    assert(w == i);
                    assert forall|o: Seq<char>| o != transfer_id@ implies #[trigger] final(self).spec_get(o) == old(self).spec_get(o) by {
                        assert forall|k: int|
                            0 <= k < self.entries@.len() implies self.entries@[k].0@ == o
                            <==> prev[k].0@ == o by {
                            if k != i {
                                assert(self.entries@[k] == prev[k]);
                            }
                        }
                        if exists|k: int|
                            0 <= k < self.entries@.len() && self.entries@[k].0@ == o {
                            let k = choose|k: int|
                                0 <= k < self.entries@.len() && self.entries@[k].0@ == o;
                            let k2 = choose|k2: int|
                                0 <= k2 < prev.len() && prev[k2].0@ == o;
                            assert(k2 == k);
                            assert(self.entries@[k] == prev[k]);
                        }
                    }
                }
                return ;
            }
            i = i + 1;
        }
        let ghost prev = self.entries@;
        self.entries.push((transfer_id.to_owned(), accept));
        proof {
            assert(self.entries@[prev.len() as int].0@ == transfer_id@);
            let w = choose|w: int|
                0 <= w < self.entries@.len() && self.entries@[w].0@ == transfer_id@;
            assert(w == prev.len());
            assert forall|o: Seq<char>| o != transfer_id@ implies #[trigger] final(self).spec_get(o) == old(self).spec_get(o) by {
                if exists|k: int| 0 <= k < prev.len() && prev[k].0@ == o {
                    let k = choose|k: int| 0 <= k < prev.len() && prev[k].0@ == o;
                    assert(self.entries@[k].0@ == o);
                    let k2 = choose|k2: int|
                        0 <= k2 < self.entries@.len() && self.entries@[k2].0@ == o;
                    assert(k2 == k);
                } else {
                    if exists|k: int|
                        0 <= k < self.entries@.len() && self.entries@[k].0@ == o {
                        let k = choose|k: int|
                            0 <= k < self.entries@.len() && self.entries@[k].0@ == o;
                        assert(k == prev.len());
                        assert(false);
                    }
                }
            }
        }
    }

    /// Removes and returns the stored answer for a transfer: each answer
    /// is consumed by exactly one waiter.
    pub fn take(&mut self, transfer_id: &str) -> (r: Option<bool>)
        requires
            old(self).wf(),
        ensures
            final(self).wf(),
            r == old(self).spec_get(transfer_id@),
            final(self).spec_get(transfer_id@) is None,
            forall|o: Seq<char>|
                o != transfer_id@ ==> #[trigger] final(self).spec_get(o) == old(self).spec_get(o),
    {
        let n: usize = self.entries.len();
        let mut i: usize = 0;
        while i < n
            invariant
                old(self).wf(),
                *self == *old(self),
                n == self.entries@.len(),
                i <= n,
                forall|k: int| 0 <= k < i ==> self.entries@[k].0@ != transfer_id@,
            decreases n - i,
        {
            if crate::strutil::str_eq(self.entries[i].0.as_str(), transfer_id) {
                let ghost prev = self.entries@;
                let removed = self.entries.remove(i);
                proof {
                    let w = choose|w: int| 0 <= w < prev.len() && prev[w].0@ == transfer_id@;
                    assert(w == i);
                    assert(old(self).spec_get(transfer_id@) == Some(prev[i as int].1));
                    assert forall|k: int|
                        0 <= k < self.entries@.len() implies self.entries@[k].0@
                        != transfer_id@ by {
                        if k < i {
                            assert(self.entries@[k] == prev[k]);
                        } else {
                            assert(self.entries@[k] == prev[k + 1]);
                        }
                    }
                    assert forall|o: Seq<char>| o != transfer_id@ implies #[trigger] final(self).spec_get(o) == old(self).spec_get(o) by {
                        if exists|k: int| 0 <= k < prev.len() && prev[k].0@ == o {
                            let k = choose|k: int| 0 <= k < prev.len() && prev[k].0@ == o;
                            if k < i {
                                assert(self.entries@[k] == prev[k]);
                                let k2 = choose|k2: int|
                                    0 <= k2 < self.entries@.len() && self.entries@[k2].0@ == o;
                                assert(prev[if k2 < i {
                                    k2
                                } else {
                                    k2 + 1
                                }].0@ == o);
                            } else {
                                assert(k != i);
                                assert(self.entries@[k - 1] == prev[k]);
                                let k2 = choose|k2: int|
                                    0 <= k2 < self.entries@.len() && self.entries@[k2].0@ == o;
                                assert(prev[if k2 < i {
                                    k2
                                } else {
                                    k2 + 1
                                }].0@ == o);
                            }
                        } else {
                            if exists|k: int|
                                0 <= k < self.entries@.len() && self.entries@[k].0@ == o {
                                let k = choose|k: int|
                                    0 <= k < self.entries@.len() && self.entries@[k].0@ == o;
                                assert(prev[if k < i {
                                    k
                                } else {
                                    k + 1
                                }].0@ == o);
                                assert(false);
                            }
                        }
                    }
                }
                return Some(removed.1);
            }
            i = i + 1;
        }
        None
    }
}

/// The shared decision state one receiving connection consults: the
/// per-batch decision table, the trust set, the settings, the pending
/// user answers, and which address each pending transfer came from.
pub struct Coordinator {
    pub decisions: DecisionTable,
    pub trust: TrustSet,
    pub settings: AppSettings,
    pub responses: ResponseTable,
    pub transfer_ips: Vec<(String, String)>,
}

/// The first address recorded for a transfer id, if any.
pub open spec fn spec_assoc_ip(s: Seq<(String, String)>, transfer_id: Seq<char>) -> Option<
    Seq<char>,
>
    decreases s.len(),
{
    if s.len() == 0 {
        None
    } else if s[0].0@ == transfer_id {
        Some(s[0].1@)
    } else {
        spec_assoc_ip(s.drop_first(), transfer_id)
    }
}

impl Coordinator {
    pub open spec fn wf(self) -> bool {
        self.decisions.wf() && self.trust.wf() && self.responses.wf()
    }

    /// The sender address recorded for a transfer id.
    pub open spec fn spec_ip_of(self, transfer_id: Seq<char>) -> Option<Seq<char>> {
        spec_assoc_ip(self.transfer_ips@, transfer_id)
    }

    /// What `begin_resolve` concludes, as a function of the state.
    pub open spec fn spec_step(self, batch_id: Seq<char>, sender_ip: Seq<char>) -> ResolveStep {
        match self.decisions.spec_lookup(batch_id) {
            Some(d) => ResolveStep::Decided { accepted: d.accepted, save_dir: d.save_dir },
            None => if self.settings.auto_accept_trusted && self.trust.spec_has(sender_ip) {
                ResolveStep::NeedFolder
            } else {
                ResolveStep::NeedPrompt
            },
        }
    }

    /// A fresh coordinator with the given persisted trust set and settings.
    pub fn new(trust: TrustSet, settings: AppSettings) -> (r: Coordinator)
        requires
            trust.wf(),
        ensures
            r.wf(),
            r.trust == trust,
            r.settings == settings,
            r.decisions.entries@.len() == 0,
            r.responses.entries@.len() == 0,
            r.transfer_ips@.len() == 0,
    {
        Coordinator {
            decisions: DecisionTable::new(),
            trust,
            settings,
            responses: ResponseTable::new(),
            transfer_ips: Vec::new(),
        }
    }

    /// Remembers which address a just-received offer came from, so a
    /// later "always trust" answer knows whom to trust.
    pub fn note_transfer_ip(&mut self, transfer_id: &str, ip: &str)
        requires
            old(self).wf(),
        ensures
            final(self).wf(),
            final(self).spec_ip_of(transfer_id@) == Some(ip@),
            forall|o: Seq<char>|
                o != transfer_id@ ==> #[trigger] final(self).spec_ip_of(o) == old(self).spec_ip_of(
                    o,
                ),
            final(self).decisions == old(self).decisions,
            final(self).trust == old(self).trust,
            final(self).settings == old(self).settings,
            final(self).responses == old(self).responses,
    {
        self.transfer_ips.insert(0, (transfer_id.to_owned(), ip.to_owned()));
        proof {
            assert(self.transfer_ips@.drop_first() =~= old(self).transfer_ips@);
        }
    }

    /// The sender address recorded for a transfer id.
    pub fn ip_of(&self, transfer_id: &str) -> (r: Option<String>)
        ensures
            match r {
                None => self.spec_ip_of(transfer_id@) is None,
                Some(ip) => self.spec_ip_of(transfer_id@) == Some(ip@),
            },
    {
        let n: usize = self.transfer_ips.len();
        let mut i: usize = 0;
        proof {
            assert(self.transfer_ips@.skip(0) =~= self.transfer_ips@);
        }
        while i < n
            invariant
                n == self.transfer_ips@.len(),
                i <= n,
                spec_assoc_ip(self.transfer_ips@.skip(i as int), transfer_id@) == self.spec_ip_of(
                    transfer_id@,
                ),
            decreases n - i,
        {
            let hit = crate::strutil::str_eq(self.transfer_ips[i].0.as_str(), transfer_id);
            proof {
                let tail = self.transfer_ips@.skip(i as int);
                assert(tail[0] == self.transfer_ips@[i as int]);
                assert(tail.drop_first() =~= self.transfer_ips@.skip(i + 1));
            }
            if hit {
                return Some(self.transfer_ips[i].1.clone());
            }
            i = i + 1;
        }
        proof {
            assert(self.transfer_ips@.skip(n as int) =~= Seq::<(String, String)>::empty());
        }
        None
    }

    /// Records a user's answer to a transfer prompt: the answer becomes
    /// available to the waiting connection, and when the user also chose
    /// to always trust the sending device, its address joins the trust
    /// set (idempotently).
    pub fn respond_transfer(&mut self, args: RespondTransferArgs)
        requires
            old(self).wf(),
        ensures
            final(self).wf(),
            final(self).responses.spec_get(args.transfer_id@) == Some(args.accept),
            forall|o: Seq<char>|
                o != args.transfer_id@ ==> #[trigger] final(self).responses.spec_get(o) == old(self).responses.spec_get(o),
            final(self).decisions == old(self).decisions,
            final(self).settings == old(self).settings,
            final(self).transfer_ips == old(self).transfer_ips,
            (args.accept && args.trust == Some(true) && old(self).spec_ip_of(
                args.transfer_id@,
            ) is Some) ==> forall|o: Seq<char>|
                #[trigger] final(self).trust.spec_has(o) <==> old(self).trust.spec_has(o) || o
                    == old(self).spec_ip_of(args.transfer_id@)->Some_0,
            !(args.accept && args.trust == Some(true) && old(self).spec_ip_of(
                args.transfer_id@,
            ) is Some) ==> final(self).trust == old(self).trust,
    {
        self.responses.set(args.transfer_id.as_str(), args.accept);
        let trust_wanted = match args.trust {
            Some(t) => t,
            None => false,
        };
        if args.accept && trust_wanted {
            match self.ip_of(args.transfer_id.as_str()) {
                Some(ip) => {
                    self.trust.add_trusted_device_ip(ip.as_str());
                },
                None => {},
            }
        }
    }

    /// Evicts the stored decision of a batch once every file in it is
    /// accounted for. Until then the decision must stay (concurrent
    /// offers of the batch observe it); afterwards keeping it would only
    /// grow the table for the life of the process.
    pub fn close_batch(&mut self, batch_id: &str)
        requires
            old(self).wf(),
        ensures
            final(self).wf(),
            final(self).decisions.spec_lookup(batch_id@) is None,
            forall|o: Seq<char>|
                o != batch_id@ ==> #[trigger] final(self).decisions.spec_lookup(o) == old(self).decisions.spec_lookup(o),
            final(self).trust == old(self).trust,
            final(self).settings == old(self).settings,
            final(self).responses == old(self).responses,
            final(self).transfer_ips == old(self).transfer_ips,
    {
        self.decisions.evict(batch_id);
    }

    /// Removes and returns the user's answer for a transfer, if it has
    /// arrived.
    pub fn take_response(&mut self, transfer_id: &str) -> (r: Option<bool>)
        requires
            old(self).wf(),
        ensures
            final(self).wf(),
            r == old(self).responses.spec_get(transfer_id@),
            final(self).responses.spec_get(transfer_id@) is None,
            forall|o: Seq<char>|
                o != transfer_id@ ==> #[trigger] final(self).responses.spec_get(o) == old(self).responses.spec_get(o),
            final(self).decisions == old(self).decisions,
            final(self).trust == old(self).trust,
            final(self).settings == old(self).settings,
    {
        self.responses.take(transfer_id)
    }

    /// First step of resolving an inbound offer: reuse the batch's stored
    /// decision if one exists (no prompt fires at all); otherwise force
    /// acceptance for a trusted sender under auto-acceptance (only the
    /// folder choice remains); otherwise ask the user.
    pub fn begin_resolve(&self, batch_id: &str, sender_ip: &str) -> (r: ResolveStep)
        requires
            self.wf(),
        ensures
            r == self.spec_step(batch_id@, sender_ip@),
    {
        match self.decisions.lookup(batch_id) {
            Some(d) => ResolveStep::Decided { accepted: d.accepted, save_dir: d.save_dir },
            None => {
                if self.settings.auto_accept_trusted && self.trust.contains_ip(sender_ip) {
                    ResolveStep::NeedFolder
                } else {
                    ResolveStep::NeedPrompt
                }
            },
        }
    }

    /// Second step: stores the decision reached for the batch (by prompt
    /// or by auto-acceptance), so that every concurrent and later offer of
    /// the same batch observes exactly it. A decision already stored for
    /// the batch wins and is left untouched.
    pub fn complete_resolve(&mut self, d: BatchDecision)
        requires
            old(self).wf(),
        ensures
            final(self).wf(),
            final(self).trust == old(self).trust,
            final(self).settings == old(self).settings,
            old(self).decisions.spec_lookup(d.batch_id@) is None ==> final(self).decisions.spec_lookup(d.batch_id@) == Some(d),
            old(self).decisions.spec_lookup(d.batch_id@) is Some ==> *final(self) == *old(self),
            forall|o: Seq<char>|
                o != d.batch_id@ ==> #[trigger] final(self).decisions.spec_lookup(o) == old(self).decisions.spec_lookup(o),
    {
        self.decisions.record(d);
    }
}

/// Batch idempotence: once a decision is stored for a batch, resolving
/// any further offer of that batch — from any sender — reuses exactly the
/// stored `(accepted, save_dir)` pair and fires no prompt.
pub proof fn lemma_batch_decision_reused(c: Coordinator, d: BatchDecision, sender_ip: Seq<char>)
    requires
        c.wf(),
        c.decisions.spec_lookup(d.batch_id@) == Some(d),
    ensures
        c.spec_step(d.batch_id@, sender_ip) == (ResolveStep::Decided {
            accepted: d.accepted,
            save_dir: d.save_dir,
        }),
{
}

/// Trust bypass: with auto-acceptance enabled and the sender trusted, the
/// first offer of a batch never reaches the accept/reject prompt — only
/// the destination choice remains.
pub proof fn lemma_trusted_sender_skips_prompt(c: Coordinator, batch_id: Seq<char>, sender_ip: Seq<char>)
    requires
        c.wf(),
        c.decisions.spec_lookup(batch_id) is None,
        c.settings.auto_accept_trusted,
        c.trust.spec_has(sender_ip),
    ensures
        c.spec_step(batch_id, sender_ip) == ResolveStep::NeedFolder,
{
}

} // verus!
