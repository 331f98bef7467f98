//! The retrieval policy: expiration judgement and derived response
//! headers for a stored object.

use vstd::prelude::*;
use vstd::string::StringExecFns;
use crate::text::contains_seq;
use crate::text::contains_substr;
use crate::text::dec_digits;
use crate::text::u64_to_string;
use crate::time::now_unix_seconds;
use crate::time::parse_rfc2822;
use crate::time::rfc2822_secs;

verus! {

/// A stored object's readable description, as the backend reports it.
/// The byte stream itself never enters the policy: it flows from the
/// backend to the response writer outside, consumed exactly once.
pub struct Object {
    pub content_type: Option<String>,
    pub e_tag: Option<String>,
    pub content_length: Option<u64>,
    /// The stored expiration instant, in RFC 2822, when the backend
    /// carried one.
    pub expires: Option<String>,
    /// The original file name, recovered from the backend metadata.
    pub file_name: Option<String>,
}

/// What re-encoding a file name as a URI yields, or nothing when the name
/// is no valid URI. The http crate decides; the name stands for its
/// answer, a function of the string alone.
pub uninterp spec fn uri_recoded(s: Seq<char>) -> Option<Seq<char>>;

/// Relies on `http::Uri`'s `FromStr` and `Display` implementations: the
/// outcome depends on the string alone.
#[verifier::external_body]
fn uri_recode(s: &str) -> (r: Option<String>)
    ensures
        r is Some <==> uri_recoded(s@) is Some,
        r matches Some(u) ==> uri_recoded(s@) == Some(u@),
{
    match <http::Uri as core::str::FromStr>::from_str(s) {
        Ok(u) => Some(u.to_string()),
        Err(_) => None,
    }
}

/// Content types a browser may render inline: anything mentioning plain
/// text, an image type, or MP4 video. Everything else is forced into an
/// attachment so a maliciously typed upload cannot render in the browser.
pub open spec fn inline_safe(ct: Seq<char>) -> bool {
    ||| contains_seq(ct, "text/plain"@)
    ||| contains_seq(ct, "image/"@)
    ||| contains_seq(ct, "video/mp4"@)
}

impl Object {
    /// Expired at instant `now`: the stored expiration parses and lies
    /// strictly before `now`. A missing or unparsable expiration never
    /// expires.
    pub open spec fn expired_at_spec(self, now: int) -> bool {
        match self.expires {
            Some(e) => match rfc2822_secs(e@) {
                Some(t) => t < now,
                None => false,
            },
            None => false,
        }
    }

    /// Judges expiration against a given instant.
    pub fn is_expired_at(&self, now_secs: i64) -> (r: bool)
        ensures
            r == self.expired_at_spec(now_secs as int),
    {
        match &self.expires {
            Some(e) => match parse_rfc2822(e.as_str()) {
                Some(t) => t < now_secs,
                None => false,
            },
            None => false,
        }
    }

    /// Judges expiration by the process clock. Whatever the clock says,
    /// an object without a parsable expiration is never expired.
    pub fn is_expired(&self) -> (r: bool)
        ensures
            self.expires is None ==> !r,
            (self.expires matches Some(e) && rfc2822_secs(e@) is None) ==> !r,
            r ==> (self.expires matches Some(e) && rfc2822_secs(e@) is Some),
    {
        let now = now_unix_seconds();
        self.is_expired_at(now)
    }

    /// The file name the Content-Disposition header carries, when one is
    /// owed: only for content types outside the inline-safe list, and
    /// only when the stored file name re-encodes as a URI — otherwise
    /// the header is silently omitted.
    pub open spec fn disposition_name(self) -> Option<Seq<char>> {
        match self.content_type {
            Some(ct) => if inline_safe(ct@) {
                None
            } else {
                match self.file_name {
                    Some(f) => uri_recoded(f@),
                    None => None,
                }
            },
            None => None,
        }
    }

    /// The derived response headers, in order: Content-Type first, with
    /// its default; ETag and Content-Length when present; then the
    /// attachment disposition when owed.
    pub open spec fn headers_spec(self) -> Seq<(Seq<char>, Seq<char>)> {
        seq![
            (
                "content-type"@,
                match self.content_type {
                    Some(c) => c@,
                    None => "application/octet-stream"@,
                },
            ),
        ] + (match self.e_tag {
            Some(t) => seq![("etag"@, t@)],
            None => Seq::empty(),
        }) + (match self.content_length {
            Some(n) => seq![("content-length"@, dec_digits(n as nat))],
            None => Seq::empty(),
        }) + (match self.disposition_name() {
            Some(f) => seq![("content-disposition"@, "attachment; filename=\""@ + f + "\""@)],
            None => Seq::empty(),
        })
    }

    /// Derives the response headers for this object.
    pub fn headers(&self) -> (r: Vec<(String, String)>)
        ensures
            r@.map_values(|p: (String, String)| (p.0@, p.1@)) == self.headers_spec(),
    {
        let mut out: Vec<(String, String)> = Vec::new();
        let ct = match &self.content_type {
            Some(c) => c.clone(),
            None => String::from_str("application/octet-stream"),
        };
        out.push((String::from_str("content-type"), ct));
        match &self.e_tag {
            Some(t) => out.push((String::from_str("etag"), t.clone())),
            None => (),
        }
        match &self.content_length {
            Some(n) => out.push((String::from_str("content-length"), u64_to_string(*n))),
            None => (),
        }
        match &self.content_type {
            Some(ct) => {
                let safe = contains_substr(ct.as_str(), "text/plain") || contains_substr(
                    ct.as_str(),
                    "image/",
                ) || contains_substr(ct.as_str(), "video/mp4");
                if !safe {
                    match &self.file_name {
                        Some(f) => {
                            match uri_recode(f.as_str()) {
                                Some(name) => {
                                    let mut v = String::from_str("attachment; filename=\"");
                                    v.append(name.as_str());
                                    v.append("\"");
                                    out.push((String::from_str("content-disposition"), v));
                                },
                                None => (),
                            }
                        },
                        None => (),
                    }
                }
            },
            None => (),
        }
        proof {
            assert(out@.map_values(|p: (String, String)| (p.0@, p.1@)) =~= self.headers_spec());
        }
        out
    }
}

} // verus!
