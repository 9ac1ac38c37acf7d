//! Transfer protocol engine: the offer that opens a connection, the
//! chunked body streaming with its byte-exact accounting, and the mapping
//! from connection outcomes to history record statuses.
//!
//! Wire order on one connection is strict: one offer line, one ack line,
//! then — only after an accepting ack — exactly `file_size` raw bytes.

use vstd::prelude::*;
use crate::history::TransferStatus;

verus! {

/// The offer metadata sent as the header line. Immutable once sent.
pub struct FileOffer {
    pub transfer_id: String,
    pub file_name: String,
    pub file_size: u64,
    pub mime: String,
    pub sha256: Option<String>,
    pub batch_id: Option<String>,
}

impl FileOffer {
    /// A field-for-field copy.
    pub fn duplicate(&self) -> (r: FileOffer)
        ensures
            r == *self,
    {
        FileOffer {
            transfer_id: self.transfer_id.clone(),
            file_name: self.file_name.clone(),
            file_size: self.file_size,
            mime: self.mime.clone(),
            sha256: match &self.sha256 {
                Some(s) => Some(s.clone()),
                None => None,
            },
            batch_id: match &self.batch_id {
                Some(b) => Some(b.clone()),
                None => None,
            },
        }
    }

    /// The batch this offer belongs to: its batch id when present, else
    /// its own transfer id (an ungrouped offer is its own singleton
    /// batch).
    pub open spec fn spec_batch_key(self) -> Seq<char> {
        match self.batch_id {
            Some(b) => b@,
            None => self.transfer_id@,
        }
    }

    /// The batch key used for decision lookup.
    pub fn batch_key(&self) -> (r: String)
        ensures
            r@ == self.spec_batch_key(),
    {
        match &self.batch_id {
            Some(b) => b.clone(),
            None => self.transfer_id.clone(),
        }
    }
}

/// What a file on disk looks like to the transfer layer.
pub struct FileInfo {
    pub size: u64,
    pub name: String,
    pub is_file: bool,
}

/// The receiver's one-line answer to an offer: acceptance, or a refusal
/// carrying a reason code.
pub struct AckMessage {
    pub accept: bool,
    pub error: Option<String>,
}

/// Body bytes move in chunks of at most this size (64 KiB).
pub const CHUNK_SIZE: usize = 65536;

/// How many reads a body of `total` bytes takes when every read fills the
/// requested chunk: the chunk count rounded up.
pub open spec fn spec_full_chunk_reads(total: u64) -> int {
    (total + CHUNK_SIZE - 1) / (CHUNK_SIZE as int)
}

/// Byte accounting for one transfer body, on either side: `done` of
/// `total` bytes have been moved.
pub struct StreamProgress {
    pub total: u64,
    pub done: u64,
}

impl StreamProgress {
    /// Never more than `total` bytes are accounted.
    pub open spec fn wf(self) -> bool {
        self.done <= self.total
    }

    /// The body is complete exactly when every byte was moved: no more,
    /// no fewer.
    pub open spec fn spec_complete(self) -> bool {
        self.done == self.total
    }

    /// Fresh accounting for a body of `total` bytes.
    pub fn new(total: u64) -> (r: StreamProgress)
        ensures
            r.wf(),
            r.total == total,
            r.done == 0,
    {
        StreamProgress { total, done: 0 }
    }

    /// How many bytes the next read or write may move: a full chunk, or
    /// the remainder when less is left.
    pub fn next_chunk_len(&self) -> (n: usize)
        requires
            self.wf(),
        ensures
            n == vstd::math::min(CHUNK_SIZE as int, self.total - self.done),
    {
        let remaining: u64 = self.total - self.done;
        if remaining < CHUNK_SIZE as u64 {
            remaining as usize
        } else {
            CHUNK_SIZE
        }
    }

    /// Accounts `n` more bytes. The caller never hands in more than is
    /// left, so `done` can never exceed `total`.
    pub fn advance(&mut self, n: usize)
        requires
            old(self).wf(),
            n <= old(self).total - old(self).done,
        ensures
            final(self).wf(),
            final(self).total == old(self).total,
            final(self).done == old(self).done + n,
    {
        self.done = self.done + n as u64;
    }

    /// Whether every byte has been moved.
    pub fn is_complete(&self) -> (r: bool)
        ensures
            r == self.spec_complete(),
    {
        self.done == self.total
    }

    /// Progress in whole percent (an empty body counts as fully done).
    pub fn percent(&self) -> (p: u64)
        requires
            self.wf(),
        ensures
            self.total > 0 ==> p == self.done * 100 / (self.total as int),
            self.total == 0 ==> p == 100,
            p <= 100,
    {
        if self.total == 0 {
            100
        } else {
            let scaled: u128 = (self.done as u128) * 100;
            let p: u128 = scaled / (self.total as u128);
            proof {
                assert(self.done * 100 / (self.total as int) <= 100) by (nonlinear_arith)
                    requires
                        0 < self.total,
                        self.done <= self.total,
                ;
            }
            p as u64
        }
    }
}

/// Byte-exactness: a completed body moved exactly `total` bytes — the
/// accounting can neither overshoot (`wf`) nor finish short
/// (`spec_complete`).
pub proof fn lemma_completed_transfer_byte_exact(s: StreamProgress)
    requires
        s.wf(),
        s.spec_complete(),
    ensures
        s.done == s.total,
{
}

/// Chunk counting: while the body is incomplete, a read that fills the
/// requested chunk length brings the remaining full-chunk read count down
/// by exactly one. A body of `total` bytes under error-free reads
/// therefore takes exactly `spec_full_chunk_reads(total)` reads.
pub proof fn lemma_full_chunk_step(s: StreamProgress, s2: StreamProgress)
    requires
        s.wf(),
        !s.spec_complete(),
        s2.total == s.total,
        s2.done == s.done + vstd::math::min(CHUNK_SIZE as int, s.total - s.done),
    ensures
        s2.wf(),
        spec_full_chunk_reads(s.total) - ((s.done as int) / (CHUNK_SIZE as int))
            == spec_full_chunk_reads(s2.total) - ((s2.done as int) / (CHUNK_SIZE as int)) + 1 || (
        s2.spec_complete() && spec_full_chunk_reads(s2.total) * CHUNK_SIZE >= s2.done),
{
    assert(s2.done <= s2.total);
    if s.total - s.done >= CHUNK_SIZE {
        assert((s.done + CHUNK_SIZE) / (CHUNK_SIZE as int) == (s.done as int) / (CHUNK_SIZE as int)
            + 1) by (nonlinear_arith)
            requires
                s.done >= 0,
        ;
    } else {
        assert(s2.done == s.total);
        assert(spec_full_chunk_reads(s2.total) * CHUNK_SIZE >= s2.done) by (nonlinear_arith)
            requires
                s2.done <= s2.total,
                spec_full_chunk_reads(s2.total) == (s2.total + CHUNK_SIZE - 1) / (
                CHUNK_SIZE as int),
        ;
    }
}

/// How a finished sending attempt is recorded in history: a completed
/// stream is `Completed`, an offer the peer refused is `Cancelled`
/// (distinguished from errors), and every transport, protocol or
/// resource failure is `Failed`.
pub enum SendOutcome {
    /// Every byte was written and acknowledged by the transport.
    Completed,
    /// The peer answered the offer with a refusing ack.
    RejectedByPeer,
    /// Connect, read, write, file or protocol failure.
    TransportOrProtocolError,
}

/// The history status a sending outcome is recorded under.
pub fn status_for_send_outcome(o: &SendOutcome) -> (s: TransferStatus)
    ensures
        (o is Completed) <==> (s is Completed),
        (o is RejectedByPeer) <==> (s is Cancelled),
        (o is TransportOrProtocolError) <==> (s is Failed),
{
    match o {
        SendOutcome::Completed => TransferStatus::Completed,
        SendOutcome::RejectedByPeer => TransferStatus::Cancelled,
        SendOutcome::TransportOrProtocolError => TransferStatus::Failed,
    }
}

/// Relies on `uuid::Uuid::new_v4` and its `Display` form: a fresh random
/// version-4 UUID rendered in the standard hyphenated form, which is
/// always 36 characters. Nothing else is assumed of the value.
#[verifier::external_body]
pub(crate) fn new_transfer_id() -> (r: String)
    ensures
        r@.len() == 36,
{
    uuid::Uuid::new_v4().to_string()
}

/// The MIME type guessed from a file path's extension; a pure function
/// of the path.
pub uninterp spec fn spec_mime_of(path: Seq<char>) -> Seq<char>;

/// Relies on `mime_guess::from_path`: the guess looks only at the path
/// (its extension), falling back to `application/octet-stream`.
#[verifier::external_body]
pub(crate) fn guess_mime(path: &str) -> (r: String)
    ensures
        r@ == spec_mime_of(path@),
{
    mime_guess::from_path(path).first_or_octet_stream().to_string()
}

/// Builds the offer for one outgoing file: a fresh transfer id, the
/// file's name and size, the extension-guessed MIME type, and the batch
/// id when the file is part of a batch.
pub fn make_offer(file_name: String, path: &str, file_size: u64, batch_id: Option<String>) -> (o:
    FileOffer)
    ensures
        o.file_name == file_name,
        o.file_size == file_size,
        o.mime@ == spec_mime_of(path@),
        o.sha256 is None,
        o.batch_id == batch_id,
        o.transfer_id@.len() == 36,
{
    FileOffer {
        transfer_id: new_transfer_id(),
        file_name,
        file_size,
        mime: guess_mime(path),
        sha256: None,
        batch_id,
    }
}

} // verus!
