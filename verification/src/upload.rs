//! Orchestration of one streamed field upload.
//!
//! The coordinator owns every protocol decision of the write path: it
//! draws the identifier, fixes file name, content type and expiration,
//! re-buffers the stream into parts, numbers them, accounts their bytes,
//! and judges each backend answer. The asynchronous backend calls happen
//! outside; each answer is fed back in as a plain value. Its invariant
//! carries the round-trip guarantee: when the upload is ready to
//! complete, the parts sent hold exactly the bytes received.

use vstd::prelude::*;
use vstd::pervasive::unreached;
use vstd::string::StringExecFns;
use crate::error::Error;
use crate::idgen::generate_id;
use crate::idgen::is_alnum_char;
use crate::partbuf::PartBuffer;
use crate::session::CompletedPart;
use crate::session::UploadSession;
use crate::session::ascending;
use crate::session::contiguous_from_one;
use crate::session::lemma_session_parts_ascending;
use crate::time::MAX_FORMAT_SECS;
use crate::time::compute_expiry;
use crate::time::expiry_at;
use crate::time::format_rfc2822;
use crate::time::now_unix_seconds;
use crate::time::rfc2822_of;

verus! {

/// Size a buffered part must exceed before it is flushed to the backend:
/// 5 MiB.
pub const PART_SIZE_THRESHOLD: usize = 5 * 1024 * 1024;

/// Metadata of one finished upload, reported to the caller.
#[derive(Debug)]
pub struct S3Upload {
    pub id: String,
    pub length: u64,
    pub file_name: String,
    pub content_type: String,
    pub expiration_date: String,
}

/// Where one upload stands in the multipart protocol.
#[derive(Clone, Copy, Debug, PartialEq, Eq, Structural)]
pub enum UploadPhase {
    /// Waiting for the backend's answer to the session open.
    Opening,
    /// Accepting stream chunks.
    Streaming,
    /// A part was handed out; waiting for its integrity token.
    AwaitingTag,
    /// The final part was handed out; waiting for its token.
    AwaitingLastTag,
    /// Stream ended, all parts recorded; ready to complete.
    Closing,
    /// Completion acknowledged; the object is visible.
    Done,
    /// A backend or protocol failure ended the upload.
    Failed,
}

/// One upload in flight: protocol state, object metadata, the part
/// buffer, the backend session, and the part currently handed out.
pub struct Upload {
    pub phase: UploadPhase,
    /// The object key: a fresh random identifier.
    pub id: String,
    pub file_name: String,
    pub content_type: String,
    /// When the object expires, in Unix seconds.
    pub expiration_secs: i64,
    /// The same instant, rendered in RFC 2822.
    pub expiration_date: String,
    /// Re-buffers inbound chunks into parts.
    pub buffer: PartBuffer,
    /// The backend session, present once the open was acknowledged.
    pub session: Option<UploadSession>,
    /// The part handed out for upload and not yet recorded.
    pub outbox: Option<Vec<u8>>,
}

impl Upload {
    /// All stream bytes accepted so far, in order.
    pub open spec fn received(self) -> Seq<u8> {
        self.buffer.fed()
    }

    /// The bytes of all recorded parts, concatenated in order.
    pub open spec fn sent(self) -> Seq<u8> {
        if self.session is Some {
            self.session->0.sent@
        } else {
            Seq::<u8>::empty()
        }
    }

    /// Fields the protocol never changes after `begin`.
    pub open spec fn same_identity(a: Upload, b: Upload) -> bool {
        &&& a.id == b.id
        &&& a.file_name == b.file_name
        &&& a.content_type == b.content_type
        &&& a.expiration_secs == b.expiration_secs
        &&& a.expiration_date == b.expiration_date
    }

    /// The coordinator's invariant: the buffer, the session and the
    /// outstanding part always account for every byte of the stream,
    /// according to phase.
    pub open spec fn wf(self) -> bool {
        &&& self.buffer.wf()
        &&& self.buffer.threshold() == PART_SIZE_THRESHOLD as nat
        &&& match self.phase {
            UploadPhase::Opening => {
                &&& self.session is None
                &&& self.outbox is None
                &&& self.buffer.fed() == Seq::<u8>::empty()
                &&& self.buffer.emitted() == Seq::<u8>::empty()
            },
            UploadPhase::Streaming => {
                &&& self.outbox is None
                &&& self.session matches Some(s) && s.wf() && s.sent@ == self.buffer.emitted()
            },
            UploadPhase::AwaitingTag => {
                &&& self.session matches Some(s) && s.wf() && (self.outbox matches Some(b)
                    && s.sent@ + b@ == self.buffer.emitted())
            },
            UploadPhase::AwaitingLastTag => {
                &&& self.session matches Some(s) && s.wf() && (self.outbox matches Some(b)
                    && s.sent@ + b@ == self.buffer.emitted())
                &&& self.buffer.pending() == Seq::<u8>::empty()
                &&& self.buffer.emitted() == self.buffer.fed()
            },
            UploadPhase::Closing | UploadPhase::Done => {
                &&& self.outbox is None
                &&& self.session matches Some(s) && s.wf() && s.sent@ == self.buffer.emitted()
                &&& self.buffer.pending() == Seq::<u8>::empty()
                &&& self.buffer.emitted() == self.buffer.fed()
            },
            UploadPhase::Failed => true,
        }
    }

    /// Starts an upload at a given instant: draws a fresh identifier,
    /// fixes the file name and content type with their defaults, and
    /// sets the expiration to `now + duration`, clamped into the
    /// formatter's range.
    pub fn begin_at(
        id_length: u8,
        duration_secs: u64,
        now_secs: i64,
        file_name: Option<String>,
        content_type: Option<String>,
    ) -> (r: Upload)
        ensures
            r.wf(),
            r.phase == UploadPhase::Opening,
            r.id@.len() == id_length as nat,
            forall|i: int| 0 <= i < r.id@.len() ==> is_alnum_char(#[trigger] r.id@[i]),
            r.file_name@ == match file_name {
                Some(f) => f@,
                None => "unnamed"@,
            },
            r.content_type@ == match content_type {
                Some(c) => c@,
                None => "application/octet-stream"@,
            },
            r.expiration_secs == expiry_at(now_secs as int, duration_secs as int),
            0 <= r.expiration_secs <= MAX_FORMAT_SECS,
            r.expiration_date@ == rfc2822_of(r.expiration_secs as int),
            r.received() == Seq::<u8>::empty(),
    {
        let id = generate_id(id_length);
        let expiration_secs = compute_expiry(now_secs, duration_secs);
        let expiration_date = format_rfc2822(expiration_secs);
        let fname = match file_name {
            Some(f) => f,
            None => String::from_str("unnamed"),
        };
        let ctype = match content_type {
            Some(c) => c,
            None => String::from_str("application/octet-stream"),
        };
        Upload {
            phase: UploadPhase::Opening,
            id,
            file_name: fname,
            content_type: ctype,
            expiration_secs,
            expiration_date,
            buffer: PartBuffer::new(PART_SIZE_THRESHOLD),
            session: None,
            outbox: None,
        }
    }

    /// Starts an upload now: `begin_at` with the clock's answer, so the
    /// expiration is whatever instant lies `duration_secs` ahead of it.
    pub fn begin(
        id_length: u8,
        duration_secs: u64,
        file_name: Option<String>,
        content_type: Option<String>,
    ) -> (r: Upload)
        ensures
            r.wf(),
            r.phase == UploadPhase::Opening,
            r.id@.len() == id_length as nat,
            forall|i: int| 0 <= i < r.id@.len() ==> is_alnum_char(#[trigger] r.id@[i]),
            r.file_name@ == match file_name {
                Some(f) => f@,
                None => "unnamed"@,
            },
            r.content_type@ == match content_type {
                Some(c) => c@,
                None => "application/octet-stream"@,
            },
            0 <= r.expiration_secs <= MAX_FORMAT_SECS,
            r.expiration_date@ == rfc2822_of(r.expiration_secs as int),
            r.received() == Seq::<u8>::empty(),
    {
        let now = now_unix_seconds();
        Self::begin_at(id_length, duration_secs, now, file_name, content_type)
    }

    /// Feeds in the backend's answer to the session open: a missing
    /// session id is a protocol error, a failed call a backend error;
    /// otherwise chunks may flow.
    pub fn opened(&mut self, opened: Result<Option<String>, String>) -> (r: Result<(), Error>)
        requires
            old(self).wf(),
            old(self).phase == UploadPhase::Opening,
        ensures
            final(self).wf(),
            Self::same_identity(*old(self), *final(self)),
            final(self).received() == old(self).received(),
            match opened {
                Ok(Some(sid)) => r is Ok && final(self).phase == UploadPhase::Streaming && (
                final(self).session matches Some(s) && s.upload_id == sid && s.key == old(self).id)
                    && final(self).sent() == Seq::<u8>::empty(),
                Ok(None) => r matches Err(e) && e is Protocol && final(self).phase
                    == UploadPhase::Failed,
                Err(m) => r matches Err(e) && (e matches Error::Backend(b) && b@ == m@) && final(self).phase == UploadPhase::Failed,
            },
    {
        let key = self.id.clone();
        match UploadSession::open(key, opened) {
            Ok(s) => {
                self.session = Some(s);
                self.phase = UploadPhase::Streaming;
                Ok(())
            },
            Err(e) => {
                self.phase = UploadPhase::Failed;
                Err(e)
            },
        }
    }

    /// Accepts one stream chunk. When the buffered bytes exceed the part
    /// threshold they come back as the next part to upload, under its
    /// part number; the upload then waits for that part's token.
    pub fn push_chunk(&mut self, chunk: Vec<u8>) -> (r: Option<u32>)
        requires
            old(self).wf(),
            old(self).phase == UploadPhase::Streaming,
        ensures
            final(self).wf(),
            Self::same_identity(*old(self), *final(self)),
            final(self).received() == old(self).received() + chunk@,
            final(self).sent() == old(self).sent(),
            match r {
                Some(pn) => {
                    &&& final(self).phase == UploadPhase::AwaitingTag
                    &&& final(self).session matches Some(s) && pn == s.next_part_number
                    &&& final(self).outbox matches Some(b) && b@.len() > PART_SIZE_THRESHOLD
                        && old(self).sent() + b@ == final(self).received()
                },
                None => final(self).phase == UploadPhase::Streaming && final(self).outbox is None,
            },
    {
        match self.buffer.push(chunk) {
            Some(part) => {
                self.outbox = Some(part);
                self.phase = UploadPhase::AwaitingTag;
                let pn = match &self.session {
                    Some(s) => s.next_part_number,
                    None => unreached(),
                };
                Some(pn)
            },
            None => None,
        }
    }

    /// Ends the inbound stream: any remaining buffered bytes come back as
    /// the final, possibly short, part to upload; with nothing pending
    /// the upload is ready to complete at once.
    pub fn end_of_stream(&mut self) -> (r: Option<u32>)
        requires
            old(self).wf(),
            old(self).phase == UploadPhase::Streaming,
        ensures
            final(self).wf(),
            Self::same_identity(*old(self), *final(self)),
            final(self).received() == old(self).received(),
            final(self).sent() == old(self).sent(),
            match r {
                Some(pn) => {
                    &&& final(self).phase == UploadPhase::AwaitingLastTag
                    &&& final(self).session matches Some(s) && pn == s.next_part_number
                    &&& final(self).outbox matches Some(b) && b@.len() > 0 && old(self).sent()
                        + b@ == final(self).received()
                },
                None => {
                    &&& final(self).phase == UploadPhase::Closing
                    &&& final(self).sent() == final(self).received()
                },
            },
    {
        match self.buffer.finish() {
            Some(part) => {
                self.outbox = Some(part);
                self.phase = UploadPhase::AwaitingLastTag;
                let pn = match &self.session {
                    Some(s) => s.next_part_number,
                    None => unreached(),
                };
                Some(pn)
            },
            None => {
                self.phase = UploadPhase::Closing;
                None
            },
        }
    }

    /// Feeds in the backend's answer to the outstanding part upload: an
    /// answer without an integrity token is a protocol error, a failed
    /// call a backend error; otherwise the part is recorded and the
    /// stream resumes — or, after the final part, completion is next.
    pub fn part_uploaded(&mut self, uploaded: Result<Option<String>, String>) -> (r: Result<
        (),
        Error,
    >)
        requires
            old(self).wf(),
            old(self).phase == UploadPhase::AwaitingTag || old(self).phase
                == UploadPhase::AwaitingLastTag,
            old(self).session->0.next_part_number < u32::MAX,
            old(self).session->0.total_length + old(self).outbox->0@.len() <= u64::MAX,
        ensures
            final(self).wf(),
            Self::same_identity(*old(self), *final(self)),
            final(self).received() == old(self).received(),
            match uploaded {
                Ok(Some(tag)) => {
                    &&& r is Ok
                    &&& final(self).sent() == old(self).sent() + old(self).outbox->0@
                    &&& final(self).outbox is None
                    &&& final(self).phase == (if old(self).phase == UploadPhase::AwaitingTag {
                        UploadPhase::Streaming
                    } else {
                        UploadPhase::Closing
                    })
                    &&& final(self).session matches Some(s) && s.parts@.len() > 0 && s.parts@.last()
                        == (CompletedPart {
                        part_number: old(self).session->0.next_part_number,
                        e_tag: tag,
                    })
                },
                Ok(None) => r matches Err(e) && e is Protocol && final(self).phase
                    == UploadPhase::Failed,
                Err(m) => r matches Err(e) && (e matches Error::Backend(b) && b@ == m@) && final(self).phase == UploadPhase::Failed,
            },
    {
        let mut taken: Option<Vec<u8>> = None;
        core::mem::swap(&mut taken, &mut self.outbox);
        let body = match taken {
            Some(b) => b,
            None => unreached(),
        };
        let outcome = match &mut self.session {
            Some(s) => s.record_part(&body, uploaded),
            None => unreached(),
        };
        match outcome {
            Ok(()) => {
                if matches!(self.phase, UploadPhase::AwaitingTag) {
                    self.phase = UploadPhase::Streaming;
                } else {
                    self.phase = UploadPhase::Closing;
                }
                Ok(())
            },
            Err(e) => {
                self.phase = UploadPhase::Failed;
                Err(e)
            },
        }
    }

    /// The ordered completion payload: the parts recorded so far. The
    /// numbering invariant proves them strictly ascending, the order the
    /// completion call must submit.
    pub fn completion_parts(&self) -> (r: &Vec<CompletedPart>)
        requires
            self.wf(),
            self.phase == UploadPhase::Closing,
        ensures
            r@ == self.session->0.parts@,
            contiguous_from_one(r@),
            ascending(r@),
    {
        match &self.session {
            Some(s) => {
                proof {
                    lemma_session_parts_ascending(s.parts@);
                }
                &s.parts
            },
            None => unreached(),
        }
    }

    /// Feeds in the backend's answer to the completion call. On success
    /// the upload is done, and the result reports the identifier, the
    /// total byte length — exactly the stream's length — and the
    /// metadata fixed at `begin`.
    pub fn completed(&mut self, completed: Result<(), String>) -> (r: Result<S3Upload, Error>)
        requires
            old(self).wf(),
            old(self).phase == UploadPhase::Closing,
        ensures
            final(self).wf(),
            Self::same_identity(*old(self), *final(self)),
            final(self).received() == old(self).received(),
            final(self).sent() == old(self).sent(),
            match completed {
                Ok(()) => r matches Ok(u) && {
                    &&& final(self).phase == UploadPhase::Done
                    &&& u.id == old(self).id
                    &&& u.file_name == old(self).file_name
                    &&& u.content_type == old(self).content_type
                    &&& u.expiration_date == old(self).expiration_date
                    &&& u.length as nat == old(self).received().len()
                    &&& final(self).sent() == final(self).received()
                },
                Err(m) => r matches Err(e) && (e matches Error::Backend(b) && b@ == m@) && final(self).phase == UploadPhase::Failed,
            },
    {
        match completed {
            Ok(()) => {
                let length = match &self.session {
                    Some(s) => s.total_length,
                    None => unreached(),
                };
                self.phase = UploadPhase::Done;
                Ok(
                    S3Upload {
                        id: self.id.clone(),
                        length,
                        file_name: self.file_name.clone(),
                        content_type: self.content_type.clone(),
                        expiration_date: self.expiration_date.clone(),
                    },
                )
            },
            Err(m) => {
                self.phase = UploadPhase::Failed;
                Err(Error::Backend(m))
            },
        }
    }
}

/// The write path's round-trip law: once an upload is ready to complete
/// (or done), the bytes recorded as uploaded parts are exactly the bytes
/// received from the stream — completion stitches the stream back
/// together.
pub proof fn lemma_upload_round_trip(u: Upload)
    requires
        u.wf(),
        u.phase == UploadPhase::Closing || u.phase == UploadPhase::Done,
    ensures
        u.sent() == u.received(),
{
}

} // verus!
