//! Per-connection protocol decisions, on both sides of a transfer.
//!
//! The receiving side checks the header line (framing cap, UTF-8, offer
//! schema) before anything else, answers every malformed header with a
//! refusing ack and interprets none of it, resolves the accept/reject and
//! destination question through the batch coordinator, and only then
//! streams the body. The sending side checks the ack line the same way
//! and distinguishes a peer's rejection (recorded `Cancelled`) from
//! failures (recorded `Failed`). The sockets, files, prompts and timers
//! around these decisions live in the application crate.

use vstd::prelude::*;
use crate::batch::{BatchDecision, Coordinator};
use crate::history::{TransferRecord, TransferStatus, TransferType, DeviceType};
use crate::transfer::{AckMessage, FileOffer};

verus! {

/// The refusal reason when the header line exceeds its cap.
pub const REASON_HEADER_TOO_LARGE: &'static str = "header too large or missing newline";

/// The refusal reason when the header bytes are not valid text.
pub const REASON_INVALID_UTF8: &'static str = "invalid utf8 in header";

/// The refusal reason when the header does not parse as the offer schema.
pub const REASON_INVALID_JSON: &'static str = "invalid json";

/// The refusal reason a rejected batch answers with.
pub const REASON_USER_REJECTED: &'static str = "user_rejected";

/// The refusal reason when the folder choice timed out.
pub const REASON_FOLDER_TIMEOUT: &'static str = "timeout_folder_selection";

/// The refusal reason when the folder choice was dismissed.
pub const REASON_FOLDER_CANCELLED: &'static str = "user_cancelled_folder";

/// A refusing ack line with the given reason (newline not included).
pub open spec fn spec_nack_line(reason: Seq<char>) -> Seq<char> {
    crate::wire::spec_ack_line(false, Some(reason))
}

/// The accepting ack line (newline not included).
pub open spec fn spec_accept_line() -> Seq<char> {
    crate::wire::spec_ack_line(true, None)
}

/// Builds a refusing ack line.
pub fn nack_line(reason: &str) -> (r: String)
    ensures
        r@ == spec_nack_line(reason@),
{
    let a = AckMessage { accept: false, error: Some(reason.to_owned()) };
    crate::wire::encode_ack(&a)
}

/// Builds the accepting ack line.
pub fn accept_line() -> (r: String)
    ensures
        r@ == spec_accept_line(),
{
    let a = AckMessage { accept: true, error: None };
    crate::wire::encode_ack(&a)
}

/// The ack the receiver sends when the header line overran its cap
/// without a newline: the offer is refused outright, none of the bytes
/// are interpreted, and no file is created.
pub fn oversized_header_nack() -> (r: String)
    ensures
        r@ == spec_nack_line(REASON_HEADER_TOO_LARGE@),
{
    nack_line(REASON_HEADER_TOO_LARGE)
}

/// The receiver's verdict on a complete header line.
pub enum HeaderVerdict {
    /// The line decodes to an offer: proceed to the batch decision.
    Offer(FileOffer),
    /// The line is malformed: send this refusing ack and close, creating
    /// no file.
    Refuse(String),
}

/// Checks a complete header line: it must be valid UTF-8 and parse under
/// the offer schema; otherwise the connection is answered with a
/// refusing ack naming what was wrong and no file is ever created.
pub fn receiver_check_header(line: &[u8]) -> (v: HeaderVerdict)
    ensures
        match v {
            HeaderVerdict::Offer(o) => vstd::utf8::valid_utf8(line@)
                && crate::wire::spec_parse_offer(vstd::utf8::decode_utf8(line@)) == Some(
                crate::wire::view_offer(o),
            ),
            HeaderVerdict::Refuse(ack) => if !vstd::utf8::valid_utf8(line@) {
                ack@ == spec_nack_line(REASON_INVALID_UTF8@)
            } else {
                crate::wire::spec_parse_offer(vstd::utf8::decode_utf8(line@)) is None && ack@
                    == spec_nack_line(REASON_INVALID_JSON@)
            },
        },
{
    match crate::strutil::bytes_to_string(line) {
        None => HeaderVerdict::Refuse(nack_line(REASON_INVALID_UTF8)),
        Some(text) => match crate::wire::parse_offer(text.as_str()) {
            None => HeaderVerdict::Refuse(nack_line(REASON_INVALID_JSON)),
            Some(o) => HeaderVerdict::Offer(o),
        },
    }
}

/// The ack line an already-stored batch decision is answered with: a
/// stored acceptance accepts, a stored rejection answers
/// `user_rejected` — with no further prompt of any kind.
pub fn ack_for_stored_decision(accepted: bool) -> (r: String)
    ensures
        accepted ==> r@ == spec_accept_line(),
        !accepted ==> r@ == spec_nack_line(REASON_USER_REJECTED@),
{
    if accepted {
        accept_line()
    } else {
        nack_line(REASON_USER_REJECTED)
    }
}

/// How the first offer of a batch was resolved, once the prompts (or the
/// trust bypass) ran their course.
pub enum FirstResolution {
    /// Accepted, with a destination directory chosen.
    Granted { save_dir: String },
    /// The user declined the offer.
    Denied,
    /// The bounded wait for a folder choice timed out.
    FolderTimeout,
    /// The folder dialog was dismissed without a choice.
    FolderCancelled,
}

/// Concludes the first resolution of a batch: the decision is stored —
/// acceptance with its folder, or rejection — before the ack is
/// produced, so every concurrent and later offer of the same batch
/// observes it; the ack names the outcome.
pub fn conclude_first_resolve(c: &mut Coordinator, batch_id: &str, how: FirstResolution) -> (ack:
    String)
    requires
        old(c).wf(),
    ensures
        final(c).wf(),
        final(c).trust == old(c).trust,
        final(c).settings == old(c).settings,
        old(c).decisions.spec_lookup(batch_id@) is None ==> match how {
            FirstResolution::Granted { save_dir } => final(c).decisions.spec_lookup(batch_id@)
                matches Some(d) && d.accepted && d.save_dir == Some(save_dir) && ack@
                == spec_accept_line(),
            FirstResolution::Denied => final(c).decisions.spec_lookup(batch_id@) matches Some(d)
                && !d.accepted && d.save_dir is None && ack@ == spec_nack_line(
                REASON_USER_REJECTED@,
            ),
            FirstResolution::FolderTimeout => final(c).decisions.spec_lookup(batch_id@)
                matches Some(d) && !d.accepted && d.save_dir is None && ack@ == spec_nack_line(
                REASON_FOLDER_TIMEOUT@,
            ),
            FirstResolution::FolderCancelled => final(c).decisions.spec_lookup(batch_id@)
                matches Some(d) && !d.accepted && d.save_dir is None && ack@ == spec_nack_line(
                REASON_FOLDER_CANCELLED@,
            ),
        },
        forall|o: Seq<char>|
            o != batch_id@ ==> #[trigger] final(c).decisions.spec_lookup(o) == old(
                c,
            ).decisions.spec_lookup(o),
{
    match how {
        FirstResolution::Granted { save_dir } => {
            let d = BatchDecision {
                batch_id: batch_id.to_owned(),
                accepted: true,
                save_dir: Some(save_dir),
            };
            c.complete_resolve(d);
            accept_line()
        },
        FirstResolution::Denied => {
            let d = BatchDecision {
                batch_id: batch_id.to_owned(),
                accepted: false,
                save_dir: None,
            };
            c.complete_resolve(d);
            nack_line(REASON_USER_REJECTED)
        },
        FirstResolution::FolderTimeout => {
            let d = BatchDecision {
                batch_id: batch_id.to_owned(),
                accepted: false,
                save_dir: None,
            };
            c.complete_resolve(d);
            nack_line(REASON_FOLDER_TIMEOUT)
        },
        FirstResolution::FolderCancelled => {
            let d = BatchDecision {
                batch_id: batch_id.to_owned(),
                accepted: false,
                save_dir: None,
            };
            c.complete_resolve(d);
            nack_line(REASON_FOLDER_CANCELLED)
        },
    }
}

/// The sender's verdict on a complete ack line.
pub enum AckVerdict {
    /// The peer accepted: stream the body now.
    Proceed,
    /// The peer refused, with its reason (`rejected` when it gave none):
    /// the transfer is recorded `Cancelled`, and no byte is sent.
    RejectedByPeer(String),
    /// The line is not valid text or not an ack: a protocol failure,
    /// recorded `Failed`, and no byte is sent.
    Malformed,
}

/// Checks a complete ack line. Only an explicit `accept: true` lets any
/// body byte be sent.
pub fn sender_check_ack(line: &[u8]) -> (v: AckVerdict)
    ensures
        match v {
            AckVerdict::Proceed => vstd::utf8::valid_utf8(line@) && (crate::wire::spec_parse_ack(
                vstd::utf8::decode_utf8(line@),
            ) matches Some(a) && a.0),
            AckVerdict::RejectedByPeer(reason) => vstd::utf8::valid_utf8(line@) && (
            crate::wire::spec_parse_ack(vstd::utf8::decode_utf8(line@)) matches Some(a) && !a.0
                && match a.1 {
                Some(e) => reason@ == e,
                None => reason@ == "rejected"@,
            }),
            AckVerdict::Malformed => !vstd::utf8::valid_utf8(line@) || crate::wire::spec_parse_ack(
                vstd::utf8::decode_utf8(line@),
            ) is None,
        },
{
    match crate::strutil::bytes_to_string(line) {
        None => AckVerdict::Malformed,
        Some(text) => match crate::wire::parse_ack(text.as_str()) {
            None => AckVerdict::Malformed,
            Some(a) => {
                if a.accept {
                    AckVerdict::Proceed
                } else {
                    match a.error {
                        Some(e) => AckVerdict::RejectedByPeer(e),
                        None => AckVerdict::RejectedByPeer("rejected".to_owned()),
                    }
                }
            },
        },
    }
}

/// Builds the history record for a finished transfer attempt. For a sent
/// file the local device is the origin; for a received file it is the
/// destination. Duration is the elapsed time in whole seconds, speed the
/// byte throughput.
pub fn build_transfer_record(
    id: String,
    file_name: String,
    file_size: u64,
    transfer_type: TransferType,
    status: TransferStatus,
    local_device: String,
    peer_device: String,
    start_time: String,
    elapsed_ms: u128,
) -> (r: TransferRecord)
    requires
        elapsed_ms < 0x1_0000_0000_0000_0000,
    ensures
        r.id == id,
        r.file_name == file_name,
        r.file_size == file_size,
        r.transfer_type == transfer_type,
        r.status == status,
        (transfer_type is Sent) ==> r.from_device == local_device && r.to_device == peer_device,
        (transfer_type is Received) ==> r.from_device == peer_device && r.to_device
            == local_device,
        r.start_time == start_time,
        r.duration == elapsed_ms as int / 1000,
        r.speed == crate::history::spec_speed_bps(file_size, elapsed_ms),
        r.device_type is Desktop,
{
    let speed = crate::history::speed_bps(file_size, elapsed_ms);
    let sent = match transfer_type {
        TransferType::Sent => true,
        TransferType::Received => false,
    };
    let (from_device, to_device) = if sent {
        (local_device, peer_device)
    } else {
        (peer_device, local_device)
    };
    TransferRecord {
        id,
        file_name,
        file_size,
        transfer_type,
        status,
        from_device,
        to_device,
        start_time,
        duration: (elapsed_ms / 1000) as u64,
        speed,
        device_type: DeviceType::Desktop,
    }
}

} // verus!
