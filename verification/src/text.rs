//! Verified text utilities the pipeline's policies are stated over:
//! substring search, decimal formatting and parsing, and whitespace
//! trimming, each with an exact character-level specification.

use vstd::prelude::*;

verus! {

/// `needle` occurs in `hay` starting at position `i`.
pub open spec fn occurs_at(hay: Seq<char>, needle: Seq<char>, i: int) -> bool {
    &&& 0 <= i
    &&& i + needle.len() <= hay.len()
    &&& hay.subrange(i, i + needle.len()) == needle
}

/// `needle` occurs somewhere in `hay`, the question `str::contains` answers.
pub open spec fn contains_seq(hay: Seq<char>, needle: Seq<char>) -> bool {
    exists|i: int| occurs_at(hay, needle, i)
}

/// Does `needle` occur in `hay` at position `from`?
fn matches_at(hay: &str, needle: &str, from: usize) -> (r: bool)
    requires
        from + needle@.len() <= hay@.len(),
    ensures
        r == occurs_at(hay@, needle@, from as int),
{
    let h = hay.unicode_len();
    let n = needle.unicode_len();
    let mut j: usize = 0;
    while j < n
        invariant
            j <= n,
            n == needle@.len(),
            h == hay@.len(),
            from + n <= h,
            forall|t: int| 0 <= t < j ==> hay@[from + t] == needle@[t],
        decreases n - j,
    {
        if hay.get_char(from + j) != needle.get_char(j) {
            proof {
                let sub = hay@.subrange(from as int, from + n);
                assert(sub[j as int] == hay@[from + j]);
                assert(sub[j as int] != needle@[j as int]);
            }
            return false;
        }
        j += 1;
    }
    proof {
        assert(hay@.subrange(from as int, from + n) =~= needle@);
    }
    true
}

/// Substring search: whether `needle` occurs anywhere in `hay`.
pub fn contains_substr(hay: &str, needle: &str) -> (r: bool)
    ensures
        r == contains_seq(hay@, needle@),
{
    let h = hay.unicode_len();
    let n = needle.unicode_len();
    if n > h {
        return false;
    }
    if n == 0 {
        proof {
            assert(hay@.subrange(0, 0) =~= needle@);
            assert(occurs_at(hay@, needle@, 0));
        }
        return true;
    }
    let mut i: usize = 0;
    while i <= h - n
        invariant
            1 <= n <= h,
            h == hay@.len(),
            n == needle@.len(),
            i <= h - n + 1,
            forall|k: int| 0 <= k < i ==> !occurs_at(hay@, needle@, k),
        decreases h - n + 1 - i,
    {
        if matches_at(hay, needle, i) {
            return true;
        }
        i += 1;
    }
    proof {
        assert forall|k: int| !occurs_at(hay@, needle@, k) by {
            if 0 <= k && k + needle@.len() <= hay@.len() {
                assert(k < i);
            }
        }
    }
    false
}

/// Character-for-character string equality.
pub fn str_eq(a: &str, b: &str) -> (r: bool)
    ensures
        r == (a@ == b@),
{
    let n = a.unicode_len();
    if n != b.unicode_len() {
        return false;
    }
    let mut i: usize = 0;
    while i < n
        invariant
            n == a@.len(),
            n == b@.len(),
            i <= n,
            forall|t: int| 0 <= t < i ==> a@[t] == b@[t],
        decreases n - i,
    {
        if a.get_char(i) != b.get_char(i) {
            return false;
        }
        i += 1;
    }
    proof {
        assert(a@ =~= b@);
    }
    true
}

/// The character for one decimal digit.
pub open spec fn digit_char(d: int) -> char {
    ((48 + d) as u8) as char
}

/// The decimal numeral of `n`, most significant digit first.
pub open spec fn dec_digits(n: nat) -> Seq<char>
    decreases n,
{
    if n < 10 {
        seq![digit_char(n as int)]
    } else {
        dec_digits(n / 10).push(digit_char((n % 10) as int))
    }
}

/// Relies on `String::from_utf8`: bytes below 0x80 decode to one character
/// each, with the same code point.
#[verifier::external_body]
pub(crate) fn ascii_to_string(v: Vec<u8>) -> (r: String)
    requires
        forall|i: int| 0 <= i < v@.len() ==> v@[i] < 128,
    ensures
        r@ == v@.map_values(|b: u8| b as char),
{
    match String::from_utf8(v) {
        Ok(s) => s,
        Err(_) => String::new(),
    }
}

/// Renders `n` in decimal.
pub fn u64_to_string(n: u64) -> (r: String)
    ensures
        r@ == dec_digits(n as nat),
{
    let mut rev: Vec<u8> = Vec::new();
    let mut m: u64 = n;
    if m == 0 {
        rev.push(48);
        proof {
            assert(rev_chars(rev@) =~= seq![digit_char(0)]);
        }
    }
    while m > 0
        invariant
            forall|i: int| 0 <= i < rev@.len() ==> 48 <= #[trigger] rev@[i] < 58,
            m > 0 ==> dec_digits(n as nat) == dec_digits(m as nat) + rev_chars(rev@),
            m == 0 ==> dec_digits(n as nat) == rev_chars(rev@),
        decreases m,
    {
        let ghost prev = rev@;
        let d: u64 = m % 10;
        rev.push((d as u8) + 48);
        proof {
            assert(rev_chars(rev@) =~= seq![digit_char(d as int)] + rev_chars(prev));
            if m >= 10 {
                assert(dec_digits(m as nat) == dec_digits((m as nat) / 10).push(
                    digit_char((m % 10) as int),
                ));
                assert(dec_digits((m as nat) / 10) + (seq![digit_char(d as int)] + rev_chars(prev))
                    =~= (dec_digits((m as nat) / 10) + seq![digit_char(d as int)]) + rev_chars(
                    prev,
                ));
                assert(dec_digits((m as nat) / 10) + seq![digit_char(d as int)] =~= dec_digits(
                    m as nat,
                ));
            } else {
                assert(dec_digits(m as nat) =~= seq![digit_char(d as int)]);
                assert(dec_digits(m as nat) + rev_chars(prev) =~= seq![digit_char(d as int)]
                    + rev_chars(prev));
            }
        }
        m = m / 10;
    }
    let mut out: Vec<u8> = Vec::new();
    let mut i: usize = rev.len();
    while i > 0
        invariant
            i <= rev@.len(),
            forall|k: int| 0 <= k < rev@.len() ==> 48 <= #[trigger] rev@[k] < 58,
            out@.len() == rev@.len() - i,
            forall|k: int|
                0 <= k < out@.len() ==> #[trigger] out@[k] == rev@[rev@.len() - 1 - k],
        decreases i,
    {
        i -= 1;
        out.push(rev[i]);
    }
    proof {
        assert(out@.map_values(|b: u8| b as char) =~= rev_chars(rev@));
    }
    ascii_to_string(out)
}

/// The digit bytes of `s`, read back to front: `rev_chars(s)[k]` is the
/// character of the byte `s[len - 1 - k]`.
pub open spec fn rev_chars(s: Seq<u8>) -> Seq<char> {
    Seq::new(s.len(), |k: int| s[s.len() - 1 - k] as char)
}

/// Is `c` an ASCII decimal digit?
pub open spec fn is_dec_digit(c: char) -> bool {
    48 <= c as u32 <= 57
}

pub open spec fn all_dec_digits(s: Seq<char>) -> bool {
    forall|i: int| 0 <= i < s.len() ==> is_dec_digit(#[trigger] s[i])
}

/// The value of a sequence of decimal digit characters.
pub open spec fn dec_val(s: Seq<char>) -> nat
    decreases s.len(),
{
    if s.len() == 0 {
        0
    } else {
        dec_val(s.drop_last()) * 10 + (s.last() as u32 - 48) as nat
    }
}

/// What parsing an unsigned decimal integer yields: the digits' value, after
/// an optional leading `+`, or nothing when a character is out of place.
/// The value is unbounded here; an executable parser also rejects values
/// its integer type cannot hold.
pub open spec fn parse_spec(s: Seq<char>) -> Option<nat> {
    let t = if s.len() > 0 && s[0] == '+' {
        s.drop_first()
    } else {
        s
    };
    if t.len() > 0 && all_dec_digits(t) {
        Some(dec_val(t))
    } else {
        None
    }
}

/// Extending a digit string multiplies its value up, so any prefix's value
/// is a lower bound on the whole.
proof fn lemma_dec_val_prefix_bound(s: Seq<char>, k: int)
    requires
        0 <= k <= s.len(),
        all_dec_digits(s),
    ensures
        dec_val(s.subrange(0, k)) <= dec_val(s),
    decreases s.len() - k,
{
    if k < s.len() {
        lemma_dec_val_prefix_bound(s, k + 1);
        let a = s.subrange(0, k);
        let b = s.subrange(0, k + 1);
        assert(b.drop_last() =~= a);
        assert(dec_val(b) == dec_val(a) * 10 + (b.last() as u32 - 48) as nat);
        assert(dec_val(a) * 10 >= dec_val(a)) by (nonlinear_arith);
    } else {
        assert(s.subrange(0, k) =~= s);
    }
}

/// Parses the characters `from .. to` of `s` as an unsigned decimal
/// integer, exactly as `parse_spec` reads them; values above `u64::MAX`
/// are rejected.
pub fn parse_u64_range(s: &str, from: usize, to: usize) -> (r: Option<u64>)
    requires
        from <= to <= s@.len(),
    ensures
        ({
            let p = parse_spec(s@.subrange(from as int, to as int));
            &&& (r is Some <==> (p is Some && p->0 <= u64::MAX))
            &&& (r matches Some(v) ==> p == Some(v as nat))
        }),
{
    let ghost whole = s@.subrange(from as int, to as int);
    let mut start = from;
    if to > from && s.get_char(from) == '+' {
        start = from + 1;
        proof {
            assert(whole[0] == s@[from as int]);
        }
    }
    let ghost t = s@.subrange(start as int, to as int);
    proof {
        if whole.len() > 0 {
            assert(whole[0] == s@[from as int]);
        }
        if start == from {
            assert(t =~= whole);
            assert(!(whole.len() > 0 && whole[0] == '+'));
        } else {
            assert(t =~= whole.drop_first());
        }
    }
    if start == to {
        return None;
    }
    let mut acc: u64 = 0;
    let mut i = start;
    while i < to
        invariant
            start <= i <= to <= s@.len(),
            start < to,
            t == s@.subrange(start as int, to as int),
            whole == s@.subrange(from as int, to as int),
            t.len() > 0,
            all_dec_digits(t) ==> parse_spec(whole) == Some(dec_val(t)),
            !all_dec_digits(t) ==> parse_spec(whole) is None,
            all_dec_digits(s@.subrange(start as int, i as int)),
            acc as nat == dec_val(s@.subrange(start as int, i as int)),
        decreases to - i,
    {
        let c = s.get_char(i);
        let d = c as u32;
        if d < 48 || d > 57 {
            proof {
                assert(t[i - start] == s@[i as int]);
                assert(!is_dec_digit(t[i - start]));
            }
            return None;
        }
        let ghost pre = s@.subrange(start as int, i as int);
        let ghost ext = s@.subrange(start as int, i + 1);
        proof {
            assert(ext.drop_last() =~= pre);
            assert(ext.last() == s@[i as int]);
        }
        let dv = (d - 48) as u64;
        if acc > (u64::MAX - dv) / 10 {
            proof {
                assert(dec_val(ext) == acc as nat * 10 + dv as nat);
                assert(acc as nat * 10 + dv as nat > u64::MAX as nat) by (nonlinear_arith)
                    requires
                        acc > (u64::MAX - dv) / 10,
                        dv < 10,
                        acc <= u64::MAX,
                ;
                if parse_spec(whole) is Some {
                    assert(all_dec_digits(t));
                    assert(ext =~= t.subrange(0, i + 1 - start));
                    lemma_dec_val_prefix_bound(t, i + 1 - start);
                }
            }
            return None;
        }
        proof {
            assert(acc * 10 + dv <= u64::MAX) by (nonlinear_arith)
                requires
                    acc <= (u64::MAX - dv) / 10,
                    dv <= 9,
            ;
        }
        acc = acc * 10 + dv;
        i += 1;
        proof {
            assert(s@.subrange(start as int, i as int) == ext);
            assert(forall|k: int|
                0 <= k < ext.len() ==> ext[k] == #[trigger] pre.push(s@[i - 1])[k]);
            assert(is_dec_digit(ext.last()));
        }
    }
    proof {
        assert(t =~= s@.subrange(start as int, to as int));
        assert(parse_spec(whole) == Some(dec_val(t)));
    }
    Some(acc)
}

/// Parses all of `s` as an unsigned decimal integer.
pub fn parse_u64(s: &str) -> (r: Option<u64>)
    ensures
        ({
            let p = parse_spec(s@);
            &&& (r is Some <==> (p is Some && p->0 <= u64::MAX))
            &&& (r matches Some(v) ==> p == Some(v as nat))
        }),
{
    let n = s.unicode_len();
    let r = parse_u64_range(s, 0, n);
    proof {
        assert(s@.subrange(0, n as int) =~= s@);
    }
    r
}

/// The characters trimming treats as blank: ASCII space and the usual
/// ASCII control whitespace.
pub open spec fn is_blank(c: char) -> bool {
    c == ' ' || c == '\t' || c == '\n' || c == '\r'
}

/// `s` with leading and trailing blanks removed.
pub open spec fn trim_spec(s: Seq<char>) -> Seq<char>
    decreases s.len(),
{
    if s.len() == 0 {
        s
    } else if is_blank(s[0]) {
        trim_spec(s.drop_first())
    } else if is_blank(s.last()) {
        trim_spec(s.drop_last())
    } else {
        s
    }
}

/// What is lowercasing a string? `str::to_lowercase` decides; the name
/// stands for its result, a function of the characters alone.
pub uninterp spec fn lower_of(s: Seq<char>) -> Seq<char>;

/// Relies on `str::to_lowercase`: the result depends on the characters
/// alone, and an empty string stays empty.
#[verifier::external_body]
pub(crate) fn to_lowercase_string(s: &str) -> (r: String)
    ensures
        r@ == lower_of(s@),
        s@.len() == 0 ==> r@.len() == 0,
{
    s.to_lowercase()
}

} // verus!
