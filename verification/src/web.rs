//! Request-level decisions around the handlers: the request origin, the
//! terminal-versus-browser call, the plain-text listing, and the verdict
//! on a retrieval.

use vstd::prelude::*;
use vstd::string::StringExecFns;
use crate::object::Object;
use crate::text::contains_seq;
use crate::text::contains_substr;
use crate::text::lower_of;
use crate::text::to_lowercase_string;
use crate::time::now_unix_seconds;
use crate::time::rfc2822_secs;
use crate::upload::S3Upload;

verus! {

pub open spec fn view_opt(o: Option<&str>) -> Option<Seq<char>> {
    match o {
        Some(s) => Some(s@),
        None => None,
    }
}

/// The origin retrieval URLs are built on: the forwarded protocol (or
/// plain `http`) and the forwarded host, the host header, or the
/// localhost default, in that order.
pub open spec fn origin_spec(
    proto: Option<Seq<char>>,
    fwd_host: Option<Seq<char>>,
    host: Option<Seq<char>>,
) -> Seq<char> {
    (match proto {
        Some(p) => p,
        None => "http"@,
    }) + "://"@ + (match fwd_host {
        Some(h) => h,
        None => match host {
            Some(h) => h,
            None => "localhost"@,
        },
    })
}

/// Builds the request origin from the forwarded-proto, forwarded-host
/// and host header values.
pub fn get_origin(proto: Option<&str>, fwd_host: Option<&str>, host: Option<&str>) -> (r: String)
    ensures
        r@ == origin_spec(view_opt(proto), view_opt(fwd_host), view_opt(host)),
{
    let mut r = match proto {
        Some(p) => String::from_str(p),
        None => String::from_str("http"),
    };
    r.append("://");
    match fwd_host {
        Some(h) => r.append(h),
        None => match host {
            Some(h) => r.append(h),
            None => r.append("localhost"),
        },
    }
    r
}

/// A terminal client: a User-Agent is present and nowhere mentions
/// `mozilla`, case-insensitively. Such callers get the plain-text list
/// of URLs; browsers get the HTML fragment.
pub open spec fn terminal_client_spec(ua: Option<Seq<char>>) -> bool {
    match ua {
        Some(u) => !contains_seq(lower_of(u), "mozilla"@),
        None => false,
    }
}

/// Decides whether the caller is a terminal client by its User-Agent.
pub fn is_terminal_client(user_agent: Option<&str>) -> (r: bool)
    ensures
        r == terminal_client_spec(view_opt(user_agent)),
{
    match user_agent {
        Some(u) => {
            let lu = to_lowercase_string(u);
            !contains_substr(lu.as_str(), "mozilla")
        },
        None => false,
    }
}

/// One absolute retrieval URL per upload, one per line: the plain-text
/// body for terminal clients.
pub open spec fn listing_spec(origin: Seq<char>, uploads: Seq<S3Upload>) -> Seq<char>
    decreases uploads.len(),
{
    if uploads.len() == 0 {
        Seq::empty()
    } else {
        listing_spec(origin, uploads.drop_last()) + origin + "/"@ + uploads.last().id@ + "\n"@
    }
}

/// Renders the plain-text listing of finished uploads.
pub fn upload_listing(origin: &str, uploads: &Vec<S3Upload>) -> (r: String)
    ensures
        r@ == listing_spec(origin@, uploads@),
{
    let mut r = String::new();
    let mut i: usize = 0;
    while i < uploads.len()
        invariant
            i <= uploads@.len(),
            r@ == listing_spec(origin@, uploads@.subrange(0, i as int)),
        decreases uploads@.len() - i,
    {
        r.append(origin);
        r.append("/");
        r.append(uploads[i].id.as_str());
        r.append("\n");
        proof {
            let pre = uploads@.subrange(0, i as int);
            let cur = uploads@.subrange(0, i + 1);
            assert(cur.drop_last() =~= pre);
            assert(cur.last() == uploads@[i as int]);
        }
        i += 1;
    }
    proof {
        assert(uploads@.subrange(0, uploads@.len() as int) =~= uploads@);
    }
    r
}

/// The absolute retrieval URL of one upload.
pub fn upload_url(origin: &str, id: &str) -> (r: String)
    ensures
        r@ == origin@ + "/"@ + id@,
{
    let mut r = String::from_str(origin);
    r.append("/");
    r.append(id);
    r
}

/// The human-readable label of a duration of `secs` seconds. humantime
/// decides; the name stands for its rendering, a function of the
/// duration alone.
pub uninterp spec fn human_duration_of(secs: int) -> Seq<char>;

/// Relies on humantime's `format_duration` and its `Display`: the
/// rendering depends on the duration alone.
#[verifier::external_body]
fn format_seconds_label(secs: u64) -> (r: String)
    ensures
        r@ == human_duration_of(secs as int),
{
    humantime::format_duration(core::time::Duration::from_secs(secs)).to_string()
}

/// The expiration choices the index page offers: each allowed duration,
/// in minutes, beside the human-readable label of its length.
pub fn expiration_choices(allowed: &Vec<u64>) -> (r: Vec<(u64, String)>)
    ensures
        r@.len() == allowed@.len(),
        forall|i: int|
            0 <= i < r@.len() ==> (#[trigger] r@[i]).0 == allowed@[i] && r@[i].1@
                == human_duration_of(seconds_of_minutes(allowed@[i])),
{
    let mut out: Vec<(u64, String)> = Vec::new();
    let mut i: usize = 0;
    while i < allowed.len()
        invariant
            i <= allowed@.len(),
            out@.len() == i,
            forall|k: int|
                0 <= k < i ==> (#[trigger] out@[k]).0 == allowed@[k] && out@[k].1@
                    == human_duration_of(seconds_of_minutes(allowed@[k])),
        decreases allowed@.len() - i,
    {
        let m = allowed[i];
        let secs = crate::config::minutes_to_seconds(m);
        out.push((m, format_seconds_label(secs)));
        i += 1;
    }
    out
}

/// `m` minutes in seconds, saturating where they do not fit.
pub open spec fn seconds_of_minutes(m: u64) -> int {
    if 60 * m as int <= u64::MAX as int {
        60 * m as int
    } else {
        u64::MAX as int
    }
}

/// The verdict on one retrieval: the object is missing, gone past its
/// expiration, or served under derived headers. A backend fetch error
/// and a missing object are deliberately not distinguished.
pub enum Retrieval {
    NotFound,
    Gone,
    Serve(Vec<(String, String)>),
}

/// Judges a fetched object at instant `now`: nothing fetched is not
/// found; an expired object is gone; anything else is served under its
/// derived headers.
pub fn evaluate_retrieval(fetched: &Option<Object>, now_secs: i64) -> (r: Retrieval)
    ensures
        match fetched {
            None => r is NotFound,
            Some(o) => if o.expired_at_spec(now_secs as int) {
                r is Gone
            } else {
                r matches Retrieval::Serve(h) && h@.map_values(|p: (String, String)| (p.0@, p.1@))
                    == o.headers_spec()
            },
        },
{
    match fetched {
        None => Retrieval::NotFound,
        Some(o) => {
            if o.is_expired_at(now_secs) {
                Retrieval::Gone
            } else {
                Retrieval::Serve(o.headers())
            }
        },
    }
}

/// `evaluate_retrieval` at the process clock. Whatever the clock says, a
/// missing object is not found, and an object without a parsable
/// expiration is never gone.
pub fn evaluate_retrieval_now(fetched: &Option<Object>) -> (r: Retrieval)
    ensures
        fetched is None ==> r is NotFound,
        fetched matches Some(o) ==> !(r is NotFound),
        (fetched matches Some(o) && match o.expires {
            Some(e) => rfc2822_secs(e@) is None,
            None => true,
        }) ==> (r matches Retrieval::Serve(h) && h@.map_values(
            |p: (String, String)| (p.0@, p.1@),
        ) == fetched->0.headers_spec()),
{
    let now = now_unix_seconds();
    evaluate_retrieval(fetched, now)
}

} // verus!
