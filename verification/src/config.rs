//! Service configuration: the environment's variables reduced to plain
//! settings, with the documented defaults, and the expiration allow-list
//! they carry.

use vstd::prelude::*;
use vstd::string::StringExecFns;
use crate::error::Error;
use crate::text::is_blank;
use crate::text::lower_of;
use crate::text::parse_spec;
use crate::text::parse_u64;
use crate::text::parse_u64_range;
use crate::text::str_eq;
use crate::text::to_lowercase_string;
use crate::text::trim_spec;

verus! {

/// The settings the service runs on.
#[derive(Debug)]
pub struct Config {
    /// Bucket the objects are stored in. Required.
    pub aws_bucket: String,
    /// Largest accepted upload, in MiB.
    pub max_upload_size: usize,
    /// Comma-separated allowed expiration durations, in minutes.
    pub allowed_durations: String,
    /// Length of generated object identifiers.
    pub id_length: u8,
    /// Address the server listens on.
    pub socket_addr: String,
}

/// The value of the first variable whose lowercased key is `name`: the
/// case-insensitive match the environment loader applies.
pub open spec fn lookup_spec(vars: Seq<(String, String)>, name: Seq<char>) -> Option<Seq<char>>
    decreases vars.len(),
{
    if vars.len() == 0 {
        None
    } else if lower_of(vars[0].0@) == name {
        Some(vars[0].1@)
    } else {
        lookup_spec(vars.drop_first(), name)
    }
}

fn lookup_from(vars: &Vec<(String, String)>, name: &str, i: usize) -> (r: Option<String>)
    requires
        i <= vars@.len(),
    ensures
        r is Some <==> lookup_spec(vars@.skip(i as int), name@) is Some,
        r matches Some(v) ==> lookup_spec(vars@.skip(i as int), name@) == Some(v@),
    decreases vars@.len() - i,
{
    if i == vars.len() {
        proof {
            assert(vars@.skip(i as int) =~= Seq::<(String, String)>::empty());
        }
        None
    } else {
        proof {
            assert(vars@.skip(i as int)[0] == vars@[i as int]);
            assert(vars@.skip(i as int).drop_first() =~= vars@.skip(i as int + 1));
        }
        let k = to_lowercase_string(vars[i].0.as_str());
        if str_eq(k.as_str(), name) {
            Some(vars[i].1.clone())
        } else {
            lookup_from(vars, name, i + 1)
        }
    }
}

/// Looks a setting up among the variables, matching keys
/// case-insensitively.
pub fn lookup(vars: &Vec<(String, String)>, name: &str) -> (r: Option<String>)
    ensures
        r is Some <==> lookup_spec(vars@, name@) is Some,
        r matches Some(v) ==> lookup_spec(vars@, name@) == Some(v@),
{
    proof {
        assert(vars@.skip(0) =~= vars@);
    }
    lookup_from(vars, name, 0)
}

/// A numeric setting: its default when the variable is absent; when
/// present it must parse as a decimal no larger than `max`, else the
/// configuration is rejected.
pub open spec fn num_setting(
    vars: Seq<(String, String)>,
    name: Seq<char>,
    default: nat,
    max: nat,
) -> Option<nat> {
    match lookup_spec(vars, name) {
        None => Some(default),
        Some(v) => match parse_spec(v) {
            Some(n) => if n <= max {
                Some(n)
            } else {
                None
            },
            None => None,
        },
    }
}

fn read_num(vars: &Vec<(String, String)>, name: &str, default: u64, max: u64) -> (r: Option<u64>)
    ensures
        r is Some <==> num_setting(vars@, name@, default as nat, max as nat) is Some,
        r matches Some(v) ==> num_setting(vars@, name@, default as nat, max as nat) == Some(
            v as nat,
        ),
{
    match lookup(vars, name) {
        None => Some(default),
        Some(v) => match parse_u64(v.as_str()) {
            Some(n) => if n <= max {
                Some(n)
            } else {
                None
            },
            None => None,
        },
    }
}

impl Config {
    /// Builds the configuration from environment variables, with the
    /// documented defaults: the bucket name is required; the upload size
    /// and the identifier length must parse and fit when present; the
    /// rest are taken as given.
    pub fn from_env(vars: &Vec<(String, String)>) -> (r: Result<Config, Error>)
        ensures
            r is Ok <==> (lookup_spec(vars@, "aws_bucket"@) is Some && num_setting(
                vars@,
                "max_upload_size"@,
                10,
                usize::MAX as nat,
            ) is Some && num_setting(vars@, "id_length"@, 8, u8::MAX as nat) is Some),
            r matches Ok(c) ==> {
                &&& lookup_spec(vars@, "aws_bucket"@) == Some(c.aws_bucket@)
                &&& num_setting(vars@, "max_upload_size"@, 10, usize::MAX as nat) == Some(
                    c.max_upload_size as nat,
                )
                &&& num_setting(vars@, "id_length"@, 8, u8::MAX as nat) == Some(c.id_length as nat)
                &&& c.allowed_durations@ == match lookup_spec(vars@, "allowed_durations"@) {
                    Some(v) => v,
                    None => "30,60,360,1440,10080"@,
                }
                &&& c.socket_addr@ == match lookup_spec(vars@, "socket_addr"@) {
                    Some(v) => v,
                    None => "0.0.0.0:8080"@,
                }
            },
            r matches Err(e) ==> e is Validation,
    {
        let aws_bucket = match lookup(vars, "aws_bucket") {
            Some(b) => b,
            None => {
                return Err(Error::Validation(String::from_str("aws_bucket is required")));
            },
        };
        let max_upload_size = match read_num(vars, "max_upload_size", 10, usize::MAX as u64) {
            Some(n) => n as usize,
            None => {
                return Err(Error::Validation(String::from_str("max_upload_size is invalid")));
            },
        };
        let id_length = match read_num(vars, "id_length", 8, u8::MAX as u64) {
            Some(n) => n as u8,
            None => {
                return Err(Error::Validation(String::from_str("id_length is invalid")));
            },
        };
        let allowed_durations = match lookup(vars, "allowed_durations") {
            Some(v) => v,
            None => String::from_str("30,60,360,1440,10080"),
        };
        let socket_addr = match lookup(vars, "socket_addr") {
            Some(v) => v,
            None => String::from_str("0.0.0.0:8080"),
        };
        Ok(Config { aws_bucket, max_upload_size, allowed_durations, id_length, socket_addr })
    }
}

/// What one comma-separated entry contributes: its trimmed text parsed
/// as minutes, or nothing when it does not parse or does not fit.
pub open spec fn entry_value(seg: Seq<char>) -> Option<u64> {
    match parse_spec(trim_spec(seg)) {
        Some(n) => if n <= u64::MAX {
            Some(n as u64)
        } else {
            None
        },
        None => None,
    }
}

pub open spec fn opt_seq(v: Option<u64>) -> Seq<u64> {
    match v {
        Some(x) => seq![x],
        None => Seq::empty(),
    }
}

/// The allow-list an entry string denotes, read left to right: `cur` is
/// the entry under construction.
pub open spec fn durations_rec(s: Seq<char>, cur: Seq<char>) -> Seq<u64>
    decreases s.len(),
{
    if s.len() == 0 {
        opt_seq(entry_value(cur))
    } else if s[0] == ',' {
        opt_seq(entry_value(cur)) + durations_rec(s.drop_first(), Seq::empty())
    } else {
        durations_rec(s.drop_first(), cur.push(s[0]))
    }
}

/// The expiration allow-list a comma-separated string denotes: each
/// entry trimmed and parsed as minutes, entries that fail dropped.
pub open spec fn durations_spec(s: Seq<char>) -> Seq<u64> {
    durations_rec(s, Seq::empty())
}

fn is_blank_char(c: char) -> (r: bool)
    ensures
        r == is_blank(c),
{
    c == ' ' || c == '\t' || c == '\n' || c == '\r'
}

/// Parses the entry standing at `from .. to` of `s`: trims it, then
/// reads it as decimal minutes.
fn parse_entry(s: &str, from: usize, to: usize) -> (r: Option<u64>)
    requires
        from <= to <= s@.len(),
    ensures
        r == entry_value(s@.subrange(from as int, to as int)),
{
    let ghost whole = s@.subrange(from as int, to as int);
    let mut a = from;
    let mut b = to;
    while a < b && is_blank_char(s.get_char(a))
        invariant
            from <= a <= b <= s@.len(),
            b == to,
            trim_spec(whole) == trim_spec(s@.subrange(a as int, b as int)),
        decreases b - a,
    {
        proof {
            let cur = s@.subrange(a as int, b as int);
            assert(cur[0] == s@[a as int]);
            assert(cur.drop_first() =~= s@.subrange(a as int + 1, b as int));
        }
        a += 1;
    }
    while b > a && is_blank_char(s.get_char(b - 1))
        invariant
            from <= a <= b <= to <= s@.len(),
            a < b ==> !is_blank(s@[a as int]),
            trim_spec(whole) == trim_spec(s@.subrange(a as int, b as int)),
        decreases b,
    {
        proof {
            let cur = s@.subrange(a as int, b as int);
            assert(cur[0] == s@[a as int]);
            assert(cur.last() == s@[b - 1]);
            assert(cur.drop_last() =~= s@.subrange(a as int, b as int - 1));
        }
        b -= 1;
    }
    proof {
        let cur = s@.subrange(a as int, b as int);
        if cur.len() > 0 {
            assert(cur[0] == s@[a as int]);
            assert(cur.last() == s@[b - 1]);
        }
        assert(trim_spec(cur) == cur);
    }
    parse_u64_range(s, a, b)
}

/// Reads the expiration allow-list out of its comma-separated setting.
pub fn parse_allowed_durations(s: &str) -> (r: Vec<u64>)
    ensures
        r@ == durations_spec(s@),
{
    let n = s.unicode_len();
    let mut out: Vec<u64> = Vec::new();
    let mut seg_start: usize = 0;
    let mut i: usize = 0;
    proof {
        assert(s@.skip(0) =~= s@);
        assert(s@.subrange(0, 0) =~= Seq::<char>::empty());
        assert(out@ + durations_rec(s@, Seq::empty()) =~= durations_rec(s@, Seq::empty()));
    }
    while i < n
        invariant
            seg_start <= i <= n,
            n == s@.len(),
            durations_spec(s@) == out@ + durations_rec(
                s@.skip(i as int),
                s@.subrange(seg_start as int, i as int),
            ),
        decreases n - i,
    {
        let ghost rest = s@.skip(i as int);
        let ghost cur = s@.subrange(seg_start as int, i as int);
        proof {
            assert(rest[0] == s@[i as int]);
            assert(rest.drop_first() =~= s@.skip(i as int + 1));
        }
        let c = s.get_char(i);
        if c == ',' {
            match parse_entry(s, seg_start, i) {
                Some(v) => out.push(v),
                None => (),
            }
            proof {
                assert(durations_rec(rest, cur) == opt_seq(entry_value(cur)) + durations_rec(
                    s@.skip(i as int + 1),
                    Seq::empty(),
                ));
                assert(s@.subrange(i as int + 1, i as int + 1) =~= Seq::<char>::empty());
                assert(out@ + durations_rec(s@.skip(i as int + 1), Seq::empty())
                    =~= durations_spec(s@));
            }
            seg_start = i + 1;
        } else {
            proof {
                assert(durations_rec(rest, cur) == durations_rec(
                    s@.skip(i as int + 1),
                    cur.push(s@[i as int]),
                ));
                assert(s@.subrange(seg_start as int, i as int + 1) =~= cur.push(s@[i as int]));
            }
        }
        i += 1;
    }
    let ghost cur = s@.subrange(seg_start as int, n as int);
    proof {
        assert(s@.skip(n as int) =~= Seq::<char>::empty());
        assert(durations_rec(s@.skip(n as int), cur) == opt_seq(entry_value(cur)));
    }
    match parse_entry(s, seg_start, n) {
        Some(v) => out.push(v),
        None => (),
    }
    proof {
        assert(out@ =~= durations_spec(s@));
    }
    out
}

/// Whether the allow-list holds `x`.
fn contains_u64(v: &Vec<u64>, x: u64) -> (r: bool)
    ensures
        r == v@.contains(x),
{
    let mut i: usize = 0;
    while i < v.len()
        invariant
            i <= v@.len(),
            forall|k: int| 0 <= k < i ==> v@[k] != x,
        decreases v@.len() - i,
    {
        if v[i] == x {
            return true;
        }
        i += 1;
    }
    proof {
        assert(!v@.contains(x));
    }
    false
}

/// The duration, in minutes, an upload request gets: the requested value
/// exactly when the allow-list holds it; any other request — and no
/// request — falls back to the default, the first allowed value, or 30
/// minutes when the list is empty. A disallowed value is thus silently
/// replaced, never an error.
pub open spec fn chosen_minutes(allowed: Seq<u64>, requested: Option<u64>) -> u64 {
    let fallback: u64 = if allowed.len() > 0 {
        allowed[0]
    } else {
        30u64
    };
    match requested {
        Some(m) => if allowed.contains(m) {
            m
        } else {
            fallback
        },
        None => fallback,
    }
}

/// Picks the duration for one upload request.
pub fn choose_duration_minutes(allowed: &Vec<u64>, requested: Option<u64>) -> (r: u64)
    ensures
        r == chosen_minutes(allowed@, requested),
{
    let fallback: u64 = if allowed.len() > 0 {
        allowed[0]
    } else {
        30
    };
    match requested {
        Some(m) => {
            if contains_u64(allowed, m) {
                m
            } else {
                fallback
            }
        },
        None => fallback,
    }
}

/// Revisits the duration when the request carries an expiration entry:
/// the requested value replaces the current one exactly when the
/// allow-list holds it; otherwise the current choice stands.
pub fn update_duration_minutes(allowed: &Vec<u64>, current: u64, requested: Option<u64>) -> (r:
    u64)
    ensures
        r == (match requested {
            Some(m) => if allowed@.contains(m) {
                m
            } else {
                current
            },
            None => current,
        }),
{
    match requested {
        Some(m) => {
            if contains_u64(allowed, m) {
                m
            } else {
                current
            }
        },
        None => current,
    }
}

/// Minutes to seconds, saturating instead of overflowing.
pub fn minutes_to_seconds(minutes: u64) -> (r: u64)
    ensures
        r as nat == if 60 * minutes as nat <= u64::MAX as nat {
            60 * minutes as nat
        } else {
            u64::MAX as nat
        },
{
    match minutes.checked_mul(60) {
        Some(s) => s,
        None => u64::MAX,
    }
}

} // verus!
