//! Estimated-time-remaining computation for a transfer in progress.
//!
//! The estimate extrapolates the observed average throughput: with
//! `bytes_transferred` bytes moved in `elapsed_ms` milliseconds, the
//! remaining `total_bytes - bytes_transferred` bytes are predicted to take
//! `remaining * elapsed_ms / bytes_transferred` milliseconds.

use vstd::prelude::*;

verus! {

/// The milliseconds the rest of the transfer is expected to take, by linear
/// extrapolation of the average throughput so far. Zero when nothing has
/// been transferred yet or no time has passed (no estimate is possible).
pub open spec fn spec_eta_ms(bytes_transferred: u64, total_bytes: u64, elapsed_ms: u128) -> int {
    if bytes_transferred == 0 || elapsed_ms == 0 {
        0
    } else {
        vstd::math::min(
            (total_bytes - bytes_transferred) * elapsed_ms / (bytes_transferred as int),
            0xffff_ffff_ffff_ffff,
        )
    }
}

/// Estimated remaining duration in milliseconds.
pub fn eta_milliseconds(bytes_transferred: u64, total_bytes: u64, elapsed_ms: u128) -> (eta: u128)
    requires
        bytes_transferred <= total_bytes,
        elapsed_ms < 0x1_0000_0000_0000_0000,
    ensures
        eta == spec_eta_ms(bytes_transferred, total_bytes, elapsed_ms),
{
    if bytes_transferred == 0 || elapsed_ms == 0 {
        0
    } else {
        let remaining: u128 = (total_bytes - bytes_transferred) as u128;
        proof {
            assert(remaining * elapsed_ms <= 0xffff_ffff_ffff_ffff * 0xffff_ffff_ffff_ffff)
                by (nonlinear_arith)
                requires
                    remaining <= 0xffff_ffff_ffff_ffff,
                    elapsed_ms <= 0xffff_ffff_ffff_ffff,
            ;
        }
        let q: u128 = remaining * elapsed_ms / (bytes_transferred as u128);
        if q > 0xffff_ffff_ffff_ffff {
            0xffff_ffff_ffff_ffff
        } else {
            q
        }
    }
}

/// The human-readable form of an estimate, bucketed by magnitude:
/// milliseconds under a second, whole seconds (rounded half up) under a
/// minute, minutes and seconds under an hour, hours and minutes above.
pub open spec fn spec_eta_text(eta_ms: int) -> Seq<char> {
    if eta_ms < 1000 {
        crate::strutil::spec_dec(eta_ms) + "ms rimanenti"@
    } else if eta_ms < 60000 {
        crate::strutil::spec_dec((eta_ms + 500) / 1000) + "s rimanenti"@
    } else if eta_ms < 3600000 {
        crate::strutil::spec_dec(eta_ms / 60000) + "m "@ + crate::strutil::spec_dec(
            (eta_ms % 60000) / 1000,
        ) + "s rimanenti"@
    } else {
        crate::strutil::spec_dec(eta_ms / 3600000) + "h "@ + crate::strutil::spec_dec(
            (eta_ms % 3600000) / 60000,
        ) + "m rimanenti"@
    }
}

/// The text shown while no estimate is possible yet.
pub open spec fn spec_eta_unknown() -> Seq<char> {
    "Calcolo ETA..."@
}

/// The estimated time remaining, in milliseconds and as display text.
/// With no bytes moved or no time passed yet the estimate is zero and
/// the text is the placeholder.
pub fn calculate_eta(bytes_transferred: u64, total_bytes: u64, elapsed_ms: u128) -> (r: (
    u128,
    String,
))
    requires
        bytes_transferred <= total_bytes,
        elapsed_ms < 0x1_0000_0000_0000_0000,
    ensures
        r.0 == spec_eta_ms(bytes_transferred, total_bytes, elapsed_ms),
        bytes_transferred == 0 || elapsed_ms == 0 ==> r.1@ == spec_eta_unknown(),
        bytes_transferred != 0 && elapsed_ms != 0 ==> r.1@ == spec_eta_text(r.0 as int),
{
    if bytes_transferred == 0 || elapsed_ms == 0 {
        let t = "Calcolo ETA...".to_owned();
        (0, t)
    } else {
        let eta = eta_milliseconds(bytes_transferred, total_bytes, elapsed_ms);
        let mut out: Vec<char> = Vec::new();
        if eta < 1000 {
            let mut d = crate::strutil::dec_chars(eta as u64);
            out.append(&mut d);
            let mut l = crate::strutil::str_to_chars("ms rimanenti");
            out.append(&mut l);
            proof {
                assert(out@ =~= spec_eta_text(eta as int));
            }
        } else if eta < 60000 {
            let mut d = crate::strutil::dec_chars(((eta + 500) / 1000) as u64);
            out.append(&mut d);
            let mut l = crate::strutil::str_to_chars("s rimanenti");
            out.append(&mut l);
            proof {
                assert(out@ =~= spec_eta_text(eta as int));
            }
        } else if eta < 3600000 {
            let mut m = crate::strutil::dec_chars((eta / 60000) as u64);
            out.append(&mut m);
            let mut l1 = crate::strutil::str_to_chars("m ");
            out.append(&mut l1);
            let mut sec = crate::strutil::dec_chars(((eta % 60000) / 1000) as u64);
            out.append(&mut sec);
            let mut l2 = crate::strutil::str_to_chars("s rimanenti");
            out.append(&mut l2);
            proof {
                assert(out@ =~= spec_eta_text(eta as int));
            }
        } else {
            proof {
                assert(eta / 3600000 <= eta) by (nonlinear_arith)
                    requires
                        eta >= 0,
                ;
            }
            let mut hd = crate::strutil::dec_chars((eta / 3600000) as u64);
            out.append(&mut hd);
            let mut l1 = crate::strutil::str_to_chars("h ");
            out.append(&mut l1);
            let mut m = crate::strutil::dec_chars(((eta % 3600000) / 60000) as u64);
            out.append(&mut m);
            let mut l2 = crate::strutil::str_to_chars("m rimanenti");
            out.append(&mut l2);
            proof {
                assert(out@ =~= spec_eta_text(eta as int));
            }
        }
        let t = crate::strutil::chars_to_string(&out);
        (eta, t)
    }
}

} // verus!
