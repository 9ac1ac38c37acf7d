//! Day-scoped statistics over the transfer history: how many transfers
//! completed today, and their average speed, optionally restricted to a
//! selection of device names or addresses.

use vstd::prelude::*;
use crate::history::{TransferRecord, TransferStatus};

verus! {

/// The Unix-second value of an RFC 3339 timestamp; a pure function of
/// the text, `None` for text that is not a valid timestamp.
pub uninterp spec fn spec_rfc3339_secs(s: Seq<char>) -> Option<i64>;

/// Relies on `chrono::DateTime::parse_from_rfc3339` and `timestamp`:
/// parsing an RFC 3339 string and taking its Unix seconds depends on the
/// text alone.
#[verifier::external_body]
pub fn rfc3339_to_epoch_secs(s: &str) -> (r: Option<i64>)
    ensures
        r == spec_rfc3339_secs(s@),
{
    chrono::DateTime::parse_from_rfc3339(s).ok().map(|d| d.timestamp())
}

/// Timestamps this far from the epoch (about three billion years) are
/// beyond what the day arithmetic handles.
pub const TIME_BOUND: i64 = 0x1000_0000_0000_0000;

/// The local calendar day index (days since the epoch, in the time zone
/// with the given offset from UTC) of a Unix-second instant.
pub open spec fn spec_local_day(t: i64, offset_secs: i32) -> int {
    (t + offset_secs) / 86400
}

/// Whether two instants fall on the same local calendar day.
pub fn same_local_day(a: i64, b: i64, offset_secs: i32) -> (r: bool)
    requires
        -TIME_BOUND < a < TIME_BOUND,
        -TIME_BOUND < b < TIME_BOUND,
        -86400 < offset_secs < 86400,
    ensures
        r == (spec_local_day(a, offset_secs) == spec_local_day(b, offset_secs)),
{
    // Shift both instants by the same whole number of days so the
    // division is on non-negative values.
    let shift_days: i64 = 0x4000_0000_0000;
    let day_secs: i64 = 86400;
    let sa: i64 = a + offset_secs as i64 + shift_days * day_secs;
    let sb: i64 = b + offset_secs as i64 + shift_days * day_secs;
    let da: i64 = sa / day_secs;
    let db: i64 = sb / day_secs;
    proof {
        vstd::arithmetic::div_mod::lemma_hoist_over_denominator(
            a + offset_secs,
            shift_days as int,
            86400,
        );
        vstd::arithmetic::div_mod::lemma_hoist_over_denominator(
            b + offset_secs,
            shift_days as int,
            86400,
        );
    }
    da == db
}

/// Whether the timestamp denotes an instant on the same local day as
/// `now`: an unparseable timestamp, or one beyond the handled range,
/// never does.
pub open spec fn spec_is_on_day(start_time: Seq<char>, now: i64, offset_secs: i32) -> bool {
    match spec_rfc3339_secs(start_time) {
        None => false,
        Some(t) => -TIME_BOUND < t < TIME_BOUND && spec_local_day(t, offset_secs)
            == spec_local_day(now, offset_secs),
    }
}

/// Whether a record's timestamp falls on the same local day as `now`.
pub fn datetime_is_on_day(start_time: &str, now: i64, offset_secs: i32) -> (r: bool)
    requires
        -TIME_BOUND < now < TIME_BOUND,
        -86400 < offset_secs < 86400,
    ensures
        r == spec_is_on_day(start_time@, now, offset_secs),
{
    match rfc3339_to_epoch_secs(start_time) {
        None => false,
        Some(t) => {
            if -TIME_BOUND < t && t < TIME_BOUND {
                same_local_day(t, now, offset_secs)
            } else {
                false
            }
        },
    }
}

/// Whether some string of the list holds exactly these characters.
pub open spec fn spec_list_has(l: Seq<String>, x: Seq<char>) -> bool {
    exists|i: int| 0 <= i < l.len() && l[i]@ == x
}

fn list_has(l: &Vec<String>, x: &str) -> (r: bool)
    ensures
        r == spec_list_has(l@, x@),
{
    let n: usize = l.len();
    let mut i: usize = 0;
    while i < n
        invariant
            n == l@.len(),
            i <= n,
            forall|k: int| 0 <= k < i ==> l@[k]@ != x@,
        decreases n - i,
    {
        if crate::strutil::str_eq(l[i].as_str(), x) {
            return true;
        }
        i = i + 1;
    }
    false
}

/// Whether a record counts for today's statistics: it started on the
/// local day of `now`, it matches the selection (no selection matches
/// everything; otherwise one of its two device ends must be among the
/// selected names or addresses), and it completed.
pub open spec fn spec_counts(
    r: TransferRecord,
    names: Seq<String>,
    ips: Seq<String>,
    now: i64,
    offset_secs: i32,
) -> bool {
    &&& spec_is_on_day(r.start_time@, now, offset_secs)
    &&& (names.len() == 0 && ips.len() == 0) || spec_list_has(names, r.from_device@)
        || spec_list_has(names, r.to_device@) || spec_list_has(ips, r.from_device@)
        || spec_list_has(ips, r.to_device@)
    &&& r.status is Completed
}

/// How many records from index `i` on count.
pub open spec fn spec_count_from(
    recs: Seq<TransferRecord>,
    names: Seq<String>,
    ips: Seq<String>,
    now: i64,
    offset_secs: i32,
    i: int,
) -> int
    decreases recs.len() - i when 0 <= i <= recs.len()
{
    if i >= recs.len() {
        0
    } else {
        (if spec_counts(recs[i], names, ips, now, offset_secs) {
            1int
        } else {
            0int
        }) + spec_count_from(recs, names, ips, now, offset_secs, i + 1)
    }
}

/// The summed speeds of the records from index `i` on that count.
pub open spec fn spec_speed_sum_from(
    recs: Seq<TransferRecord>,
    names: Seq<String>,
    ips: Seq<String>,
    now: i64,
    offset_secs: i32,
    i: int,
) -> int
    decreases recs.len() - i when 0 <= i <= recs.len()
{
    if i >= recs.len() {
        0
    } else {
        (if spec_counts(recs[i], names, ips, now, offset_secs) {
            recs[i].speed as int
        } else {
            0int
        }) + spec_speed_sum_from(recs, names, ips, now, offset_secs, i + 1)
    }
}

/// Today's statistics: the number of completed transfers on the local
/// day of `now` matching the selection, and their average speed in
/// bytes per second (zero when there are none).
pub fn get_today_stats(
    records: &Vec<TransferRecord>,
    selected_names: &Vec<String>,
    selected_ips: &Vec<String>,
    now: i64,
    offset_secs: i32,
) -> (r: (u64, u64))
    requires
        -TIME_BOUND < now < TIME_BOUND,
        -86400 < offset_secs < 86400,
        records@.len() < 0x1_0000_0000,
    ensures
        r.0 == spec_count_from(records@, selected_names@, selected_ips@, now, offset_secs, 0),
        r.0 == 0 ==> r.1 == 0,
        r.0 > 0 ==> r.1 == spec_speed_sum_from(
            records@,
            selected_names@,
            selected_ips@,
            now,
            offset_secs,
            0,
        ) / (r.0 as int),
{
    let filter_on = selected_names.len() > 0 || selected_ips.len() > 0;
    let n: usize = records.len();
    let mut count: u64 = 0;
    let mut speed_sum: u128 = 0;
    let mut i: usize = 0;
    while i < n
        invariant
            -TIME_BOUND < now < TIME_BOUND,
            -86400 < offset_secs < 86400,
            n == records@.len() < 0x1_0000_0000,
            i <= n,
            filter_on == (selected_names@.len() > 0 || selected_ips@.len() > 0),
            count <= i,
            speed_sum <= count * 0xffff_ffff_ffff_ffff,
            count + spec_count_from(records@, selected_names@, selected_ips@, now, offset_secs, i as int)
                == spec_count_from(records@, selected_names@, selected_ips@, now, offset_secs, 0),
            speed_sum + spec_speed_sum_from(
                records@,
                selected_names@,
                selected_ips@,
                now,
                offset_secs,
                i as int,
            ) == spec_speed_sum_from(records@, selected_names@, selected_ips@, now, offset_secs, 0),
        decreases n - i,
    {
        let rec = &records[i];
        let on_day = datetime_is_on_day(rec.start_time.as_str(), now, offset_secs);
        let in_selection = if !filter_on {
            true
        } else {
            list_has(selected_names, rec.from_device.as_str()) || list_has(
                selected_names,
                rec.to_device.as_str(),
            ) || list_has(selected_ips, rec.from_device.as_str()) || list_has(
                selected_ips,
                rec.to_device.as_str(),
            )
        };
        let completed = match rec.status {
            TransferStatus::Completed => true,
            _ => false,
        };
        if on_day && in_selection && completed {
            count = count + 1;
            speed_sum = speed_sum + rec.speed as u128;
        }
        i = i + 1;
    }
    if count == 0 {
        (0, 0)
    } else {
        let avg: u128 = speed_sum / (count as u128);
        proof {
            assert(speed_sum / (count as u128) <= 0xffff_ffff_ffff_ffff) by (nonlinear_arith)
                requires
                    count >= 1,
                    speed_sum <= count * 0xffff_ffff_ffff_ffff,
            ;
        }
        (count, avg as u64)
    }
}

} // verus!
