//! Transfer history: an append-only, newest-first, size-capped log of
//! completed, cancelled and failed transfers, plus the day-scoped
//! statistics derived from it.

use vstd::prelude::*;

verus! {

/// Direction of a recorded transfer.
#[derive(Clone, Copy, PartialEq, Eq, Structural)]
pub enum TransferType {
    Sent,
    Received,
}

/// Final state of a recorded transfer. A rejection by the receiving user
/// is `Cancelled`; transport, protocol and resource errors are `Failed`.
#[derive(Clone, Copy, PartialEq, Eq, Structural)]
pub enum TransferStatus {
    Completed,
    Cancelled,
    Failed,
}

/// Kind of device on the other side, as far as it is known.
#[derive(Clone, Copy, PartialEq, Eq, Structural)]
pub enum DeviceType {
    Desktop,
    Mobile,
    Tablet,
    Unknown,
}

/// One immutable history entry. `start_time` is an RFC 3339 timestamp;
/// `duration` is in whole seconds; `speed` is in bytes per second.
pub struct TransferRecord {
    pub id: String,
    pub file_name: String,
    pub file_size: u64,
    pub transfer_type: TransferType,
    pub status: TransferStatus,
    pub from_device: String,
    pub to_device: String,
    pub start_time: String,
    pub duration: u64,
    pub speed: u64,
    pub device_type: DeviceType,
}

impl TransferRecord {
    /// A field-for-field copy.
    pub fn duplicate(&self) -> (r: TransferRecord)
        ensures
            r == *self,
    {
        TransferRecord {
            id: self.id.clone(),
            file_name: self.file_name.clone(),
            file_size: self.file_size,
            transfer_type: self.transfer_type,
            status: self.status,
            from_device: self.from_device.clone(),
            to_device: self.to_device.clone(),
            start_time: self.start_time.clone(),
            duration: self.duration,
            speed: self.speed,
            device_type: self.device_type,
        }
    }
}

/// The most recent entries are kept, newest first, at most this many.
pub const HISTORY_CAP: usize = 100;

/// Average transfer speed in bytes per second: the whole file over the
/// elapsed time, saturated at the largest representable speed. Zero when
/// no time was measured.
pub open spec fn spec_speed_bps(file_size: u64, elapsed_ms: u128) -> int {
    if elapsed_ms == 0 {
        0
    } else {
        vstd::math::min(file_size * 1000 / (elapsed_ms as int), 0xffff_ffff_ffff_ffff)
    }
}

/// Average speed in bytes per second for `file_size` bytes moved in
/// `elapsed_ms` milliseconds.
pub fn speed_bps(file_size: u64, elapsed_ms: u128) -> (r: u64)
    requires
        elapsed_ms < 0x1_0000_0000_0000_0000,
    ensures
        r == spec_speed_bps(file_size, elapsed_ms),
{
    if elapsed_ms == 0 {
        0
    } else {
        let scaled: u128 = (file_size as u128) * 1000;
        let q: u128 = scaled / elapsed_ms;
        proof {
            assert(scaled / elapsed_ms <= scaled) by (nonlinear_arith)
                requires
                    elapsed_ms >= 1,
            ;
        }
        if q > 0xffff_ffff_ffff_ffff {
            0xffff_ffff_ffff_ffff
        } else {
            q as u64
        }
    }
}

/// The newest-first, size-capped transfer log.
pub struct History {
    pub records: Vec<TransferRecord>,
}

impl History {
    /// At most `HISTORY_CAP` entries are retained.
    pub open spec fn wf(self) -> bool {
        self.records@.len() <= HISTORY_CAP
    }

    /// An empty history.
    pub fn new() -> (r: History)
        ensures
            r.wf(),
            r.records@.len() == 0,
    {
        History { records: Vec::new() }
    }

    /// Prepends a record (newest first) and truncates to the cap, so the
    /// oldest entry falls off once the cap is reached.
    pub fn add(&mut self, r: TransferRecord)
        requires
            old(self).wf(),
        ensures
            final(self).wf(),
            final(self).records@ == (seq![r] + old(self).records@).take(
                vstd::math::min(HISTORY_CAP as int, old(self).records@.len() as int + 1),
            ),
    {
        self.records.insert(0, r);
        if self.records.len() > HISTORY_CAP {
            self.records.truncate(HISTORY_CAP);
        }
        proof {
            assert(final(self).records@ =~= (seq![r] + old(self).records@).take(
                vstd::math::min(HISTORY_CAP as int, old(self).records@.len() as int + 1),
            ));
        }
    }

    /// Removes every record with the given id; all others survive, in
    /// their original order.
    pub fn delete_by_id(&mut self, id: &str)
        requires
            old(self).wf(),
        ensures
            final(self).wf(),
            forall|j: int|
                0 <= j < final(self).records@.len() ==> (#[trigger] final(self).records@[j]).id@
                    != id@ && old(self).records@.contains(final(self).records@[j]),
            forall|j: int|
                0 <= j < old(self).records@.len() && (#[trigger] old(self).records@[j]).id@ != id@
                    ==> final(self).records@.contains(old(self).records@[j]),
    {
        let n: usize = self.records.len();
        let mut kept: Vec<TransferRecord> = Vec::new();
        let mut i: usize = 0;
        while i < n
            invariant
                *self == *old(self),
                n == self.records@.len() <= HISTORY_CAP,
                i <= n,
                kept@.len() <= i,
                forall|j: int|
                    0 <= j < kept@.len() ==> (#[trigger] kept@[j]).id@ != id@
                        && self.records@.contains(kept@[j]),
                forall|j: int|
                    0 <= j < i && (#[trigger] self.records@[j]).id@ != id@ ==> kept@.contains(
                        self.records@[j],
                    ),
            decreases n - i,
        {
            let keep = !crate::strutil::str_eq(self.records[i].id.as_str(), id);
            if keep {
                let ghost prev = kept@;
                kept.push(self.records[i].duplicate());
                proof {
                    assert(kept@[prev.len() as int] == self.records@[i as int]);
                    assert forall|j: int|
                        0 <= j < i + 1 && (#[trigger] self.records@[j]).id@
                            != id@ implies kept@.contains(self.records@[j]) by {
                        if j < i {
                            let w = choose|w: int| 0 <= w < prev.len() && prev[w]
                                == self.records@[j];
                            assert(kept@[w] == self.records@[j]);
                        }
                    }
                }
            }
            i = i + 1;
        }
        self.records = kept;
    }

    /// The records, newest first, copied for presentation.
    pub fn get_recent_transfers(&self) -> (r: Vec<TransferRecord>)
        ensures
            r@ == self.records@,
    {
        let n: usize = self.records.len();
        let mut r: Vec<TransferRecord> = Vec::new();
        let mut i: usize = 0;
        while i < n
            invariant
                n == self.records@.len(),
                i <= n,
                r@ == self.records@.subrange(0, i as int),
            decreases n - i,
        {
            r.push(self.records[i].duplicate());
            proof {
                assert(r@ =~= self.records@.subrange(0, i + 1));
            }
            i = i + 1;
        }
        proof {
            assert(r@ =~= self.records@);
        }
        r
    }
}

} // verus!
