//! The multipart-upload session: open, upload parts, complete.
//!
//! The backend performs the calls; the session owns the protocol
//! bookkeeping — part numbering, integrity tokens, byte accounting — and
//! judges each backend answer. Its invariant pins the completion order the
//! protocol demands: parts numbered from one, no gaps, no reordering.

use vstd::prelude::*;
use vstd::string::StringExecFns;
use crate::error::Error;

verus! {

/// One uploaded part's completion record: its 1-based position in the
/// object and the opaque integrity token the backend assigned to it.
pub struct CompletedPart {
    pub part_number: u32,
    pub e_tag: String,
}

/// `parts[i]` is numbered `i + 1`: 1-based, strictly increasing, no gaps.
pub open spec fn contiguous_from_one(parts: Seq<CompletedPart>) -> bool {
    forall|i: int| 0 <= i < parts.len() ==> #[trigger] parts[i].part_number == i + 1
}

/// Part numbers strictly ascend: the order a completion must submit.
pub open spec fn ascending(parts: Seq<CompletedPart>) -> bool {
    forall|i: int, j: int|
        0 <= i < j < parts.len() ==> parts[i].part_number < parts[j].part_number
}

/// Adjacent order extends to any two positions.
proof fn lemma_adjacent_ascending(parts: Seq<CompletedPart>, i: int, j: int)
    requires
        forall|k: int|
            0 < k < parts.len() ==> #[trigger] parts[k].part_number > parts[k - 1].part_number,
        0 <= i < j < parts.len(),
    ensures
        parts[i].part_number < parts[j].part_number,
    decreases j - i,
{
    if i + 1 < j {
        lemma_adjacent_ascending(parts, i, j - 1);
        assert(parts[j].part_number > parts[j - 1].part_number);
    } else {
        assert(parts[j].part_number > parts[j - 1].part_number);
    }
}

/// Judges a completion submission: accepted exactly when its parts stand
/// in strictly ascending part-number order; anything else is refused as a
/// protocol error before it reaches the backend.
pub fn validate_completion(parts: &Vec<CompletedPart>) -> (r: Result<(), Error>)
    ensures
        r is Ok <==> ascending(parts@),
        r matches Err(e) ==> e is Protocol,
{
    let n = parts.len();
    let mut i: usize = 1;
    while i < n
        invariant
            1 <= i,
            n == parts@.len(),
            i <= n || n == 0,
            forall|k: int|
                0 < k < i ==> #[trigger] parts@[k].part_number > parts@[k - 1].part_number,
        decreases n - i,
    {
        if parts[i - 1].part_number >= parts[i].part_number {
            proof {
                assert(!ascending(parts@)) by {
                    assert(parts@[i - 1].part_number >= parts@[i as int].part_number);
                }
            }
            return Err(Error::Protocol(String::from_str("completion parts out of order")));
        }
        i += 1;
    }
    proof {
        assert forall|a: int, b: int|
            0 <= a < b < parts@.len() implies parts@[a].part_number < parts@[b].part_number by {
            lemma_adjacent_ascending(parts@, a, b);
        }
    }
    Ok(())
}

/// A session's recorded parts always satisfy the completion order: the
/// numbering invariant forces strictly ascending part numbers.
pub proof fn lemma_session_parts_ascending(parts: Seq<CompletedPart>)
    requires
        contiguous_from_one(parts),
    ensures
        ascending(parts),
{
}

/// One in-flight multipart upload against the storage backend.
pub struct UploadSession {
    /// The opaque upload-protocol token the backend assigned at open.
    pub upload_id: String,
    /// The object key the session writes to.
    pub key: String,
    /// Completion records of the parts uploaded so far, in order.
    pub parts: Vec<CompletedPart>,
    /// 1-based number the next part will carry.
    pub next_part_number: u32,
    /// Total bytes recorded across all parts.
    pub total_length: u64,
    /// The bytes of all recorded parts, concatenated in order.
    pub sent: Ghost<Seq<u8>>,
}

impl UploadSession {
    /// Parts are numbered 1..=n with no duplicates or gaps, the next part
    /// number follows them, and the total length is the length of all
    /// bytes sent.
    pub open spec fn wf(self) -> bool {
        &&& contiguous_from_one(self.parts@)
        &&& self.next_part_number == self.parts@.len() + 1
        &&& self.total_length == self.sent@.len()
    }

    /// Judges the backend's answer to the session open: a missing session
    /// id is a protocol error, a failed call a backend error; otherwise
    /// the session starts empty.
    pub fn open(key: String, opened: Result<Option<String>, String>) -> (r: Result<
        UploadSession,
        Error,
    >)
        ensures
            match opened {
                Ok(Some(id)) => r matches Ok(s) && s.wf() && s.upload_id == id && s.key == key
                    && s.parts@.len() == 0 && s.total_length == 0 && s.sent@ == Seq::<u8>::empty(),
                Ok(None) => r matches Err(e) && e is Protocol,
                Err(m) => r matches Err(e) && (e matches Error::Backend(b) && b@ == m@),
            },
    {
        match opened {
            Ok(Some(id)) => Ok(UploadSession {
                upload_id: id,
                key,
                parts: Vec::new(),
                next_part_number: 1,
                total_length: 0,
                sent: Ghost(Seq::empty()),
            }),
            Ok(None) => Err(Error::Protocol(String::from_str("no upload id in open response"))),
            Err(m) => Err(Error::Backend(m)),
        }
    }

    /// Judges the backend's answer to one part upload: an answer without
    /// an integrity token is a protocol error, a failed call a backend
    /// error; otherwise the part is recorded under the next part number.
    pub fn record_part(&mut self, body: &Vec<u8>, uploaded: Result<Option<String>, String>) -> (r:
        Result<(), Error>)
        requires
            old(self).wf(),
            old(self).next_part_number < u32::MAX,
            old(self).total_length + body@.len() <= u64::MAX,
        ensures
            match uploaded {
                Ok(Some(tag)) => {
                    &&& r is Ok
                    &&& final(self).wf()
                    &&& final(self).parts@ == old(self).parts@.push(
                        CompletedPart { part_number: old(self).next_part_number, e_tag: tag },
                    )
                    &&& final(self).sent@ == old(self).sent@ + body@
                    &&& final(self).total_length == old(self).total_length + body@.len()
                    &&& final(self).upload_id == old(self).upload_id
                    &&& final(self).key == old(self).key
                },
                Ok(None) => r matches Err(e) && e is Protocol && *final(self) == *old(self),
                Err(m) => r matches Err(e) && (e matches Error::Backend(b) && b@ == m@)
                    && *final(self) == *old(self),
            },
    {
        match uploaded {
            Ok(Some(tag)) => {
                let part = CompletedPart { part_number: self.next_part_number, e_tag: tag };
                self.parts.push(part);
                self.next_part_number = self.next_part_number + 1;
                self.total_length = self.total_length + body.len() as u64;
                self.sent = Ghost(self.sent@ + body@);
                Ok(())
            },
            Ok(None) => Err(
                Error::Protocol(String::from_str("no integrity token in part response")),
            ),
            Err(m) => Err(Error::Backend(m)),
        }
    }

    /// Judges the backend's answer to the completion call; on success the
    /// object is visible under the session's key.
    pub fn complete(&self, completed: Result<(), String>) -> (r: Result<(), Error>)
        ensures
            match completed {
                Ok(()) => r is Ok,
                Err(m) => r matches Err(e) && (e matches Error::Backend(b) && b@ == m@),
            },
    {
        match completed {
            Ok(()) => Ok(()),
            Err(m) => Err(Error::Backend(m)),
        }
    }
}

} // verus!
