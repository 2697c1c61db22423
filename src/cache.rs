use vstd::prelude::*;

use crate::error::SpeedError;
use crate::Measurement;

verus! {

/// File name of the cache, relative to the cache directory.
pub const CACHE_FILE_NAME: &'static str = ".polybar-internet-speed.toml";

pub open spec fn is_digit(c: char) -> bool {
    '0' <= c && c <= '9'
}

pub open spec fn digit_char(d: nat) -> char
    recommends
        d < 10,
{
    (('0' as u32) + d) as char
}

/// Base-ten spelling of `n`, most significant digit first, without leading zeros.
pub open spec fn decimal(n: nat) -> Seq<char>
    decreases n,
{
    if n < 10 {
        seq![digit_char(n)]
    } else {
        decimal(n / 10).push(digit_char(n % 10))
    }
}

/// Value of a sequence of decimal digits, most significant first.
pub open spec fn digits_value(s: Seq<char>) -> nat
    decreases s.len(),
{
    if s.len() == 0 {
        0
    } else {
        digits_value(s.drop_last()) * 10 + ((s.last() as u32) - ('0' as u32)) as nat
    }
}

/// Number of decimal digits at the start of `s`.
pub open spec fn leading_digits(s: Seq<char>) -> nat
    decreases s.len(),
{
    if s.len() > 0 && is_digit(s[0]) {
        1 + leading_digits(s.skip(1))
    } else {
        0
    }
}

/// A run of digits without a leading zero (TOML's decimal integer), ended
/// by a newline, whose value fits in `u32`: its value and the number of
/// characters it spans, the newline included.
pub open spec fn number_field(t: Seq<char>) -> Option<(nat, nat)> {
    let k = leading_digits(t);
    if 0 < k && k < t.len() && t[k as int] == '\n' && (k == 1 || t[0] != '0') && digits_value(
        t.take(k as int),
    ) <= u32::MAX {
        Some((digits_value(t.take(k as int)), k + 1))
    } else {
        None
    }
}

/// `key` followed by a number field.
pub open spec fn keyed_field(t: Seq<char>, key: Seq<char>) -> Option<(nat, nat)> {
    if key.len() <= t.len() && t.take(key.len() as int) == key {
        match number_field(t.skip(key.len() as int)) {
            Some((v, c)) => Some((v, key.len() + c)),
            None => None,
        }
    } else {
        None
    }
}

/// The cache text that stores `m`.
pub open spec fn encode_spec(m: Measurement) -> Seq<char> {
    "downloadSpeed = "@ + decimal(m.download_speed_mbps as nat) + "\n"@ + "latency = "@
        + decimal(m.latency_ms as nat) + "\n"@
}

/// The measurement that cache text `t` stores, if it has the cache layout.
///
/// The layout is strict: exactly the two lines that `encode_spec` writes, in
/// that order, with single spaces around `=`, `\n` line ends, and decimal
/// integers without sign, underscores or leading zeros. Every text accepted
/// is TOML holding those two integer keys; TOML in any other shape (other key
/// order, extra keys, comments, other spacing) is refused.
pub open spec fn decode_spec(t: Seq<char>) -> Option<Measurement> {
    match keyed_field(t, "downloadSpeed = "@) {
        Some((d, c1)) => match keyed_field(t.skip(c1 as int), "latency = "@) {
            Some((l, c2)) => if c1 + c2 == t.len() {
                Some(Measurement { download_speed_mbps: d as u32, latency_ms: l as u32 })
            } else {
                None
            },
            None => None,
        },
        None => None,
    }
}

/// `name` placed inside directory `base`.
pub open spec fn join_path(base: Seq<char>, name: Seq<char>) -> Seq<char> {
    if base.len() == 0 {
        name
    } else if base.last() == '/' {
        base + name
    } else {
        base + "/"@ + name
    }
}

/// The one-character string spelling digit `d`.
fn digit_str(d: u32) -> (r: &'static str)
    requires
        d < 10,
    ensures
        r@ == seq![digit_char(d as nat)],
{
    proof {
        reveal_strlit("0");
        reveal_strlit("1");
        reveal_strlit("2");
        reveal_strlit("3");
        reveal_strlit("4");
        reveal_strlit("5");
        reveal_strlit("6");
        reveal_strlit("7");
        reveal_strlit("8");
        reveal_strlit("9");
    }
    let r = match d {
        0 => "0",
        1 => "1",
        2 => "2",
        3 => "3",
        4 => "4",
        5 => "5",
        6 => "6",
        7 => "7",
        8 => "8",
        _ => "9",
    };
    assert(r@ =~= seq![digit_char(d as nat)]);
    r
}

/// Base-ten spelling of `n`.
pub fn u32_decimal(n: u32) -> (r: String)
    ensures
        r@ == decimal(n as nat),
    decreases n,
{
    if n < 10 {
        String::from_str(digit_str(n))
    } else {
        let mut out = u32_decimal(n / 10);
        out.append(digit_str(n % 10));
        assert(out@ =~= decimal(n as nat));
        out
    }
}

/// Path of the cache file under the cache directory `cache_home`; fails when
/// the directory is not set.
pub fn get_buffered_filename(cache_home: &Option<String>) -> (r: Result<String, SpeedError>)
    ensures
        cache_home is None <==> r is Err,
        r is Err ==> r->Err_0 is Environment,
        r is Ok ==> r->Ok_0@ == join_path(cache_home->Some_0@, CACHE_FILE_NAME@),
{
    match cache_home {
        None => Err(SpeedError::Environment),
        Some(base) => {
            let n = base.as_str().unicode_len();
            if n == 0 {
                Ok(String::from_str(CACHE_FILE_NAME))
            } else if base.as_str().get_char(n - 1) == '/' {
                Ok(base.clone().concat(CACHE_FILE_NAME))
            } else {
                Ok(base.clone().concat("/").concat(CACHE_FILE_NAME))
            }
        },
    }
}

/// Writes `m` in the cache layout: one `key = value` line per field.
pub fn encode_cache(m: &Measurement) -> (r: String)
    ensures
        r@ == encode_spec(*m),
{
    let mut out = String::from_str("downloadSpeed = ");
    let d = u32_decimal(m.download_speed_mbps);
    out.append(d.as_str());
    out.append("\n");
    out.append("latency = ");
    let l = u32_decimal(m.latency_ms);
    out.append(l.as_str());
    out.append("\n");
    out
}

proof fn lemma_decimal(n: nat)
    ensures
        decimal(n).len() >= 1,
        forall|i: int| 0 <= i < decimal(n).len() ==> is_digit(#[trigger] decimal(n)[i]),
        digits_value(decimal(n)) == n,
        n > 0 ==> decimal(n)[0] != '0',
    decreases n,
{
    let c = digit_char(n % 10);
    assert((c as u32) - ('0' as u32) == n % 10);
    assert(digits_value(decimal(n)) == digits_value(decimal(n).drop_last()) * 10 + n % 10);
    if n < 10 {
        assert(decimal(n).drop_last() =~= Seq::<char>::empty());
        assert(decimal(n).last() == c);
    } else {
        lemma_decimal(n / 10);
        assert(decimal(n).drop_last() =~= decimal(n / 10));
        assert(n == (n / 10) * 10 + n % 10);
        assert(decimal(n).last() == c);
    }
}

proof fn lemma_leading_digits_ge(t: Seq<char>, m: nat)
    requires
        m <= t.len(),
        forall|i: int| 0 <= i < m ==> is_digit(#[trigger] t[i]),
    ensures
        leading_digits(t) >= m,
    decreases m,
{
    if m > 0 {
        let u = t.skip(1);
        assert forall|i: int| 0 <= i < (m - 1) as nat implies is_digit(#[trigger] u[i]) by {
            assert(u[i] == t[i + 1]);
        }
        lemma_leading_digits_ge(u, (m - 1) as nat);
    }
}

proof fn lemma_leading_digits_le(t: Seq<char>)
    ensures
        leading_digits(t) <= t.len(),
    decreases t.len(),
{
    if t.len() > 0 {
        lemma_leading_digits_le(t.skip(1));
    }
}

proof fn lemma_leading_digits_eq(t: Seq<char>, k: nat)
    requires
        k <= t.len(),
        forall|i: int| 0 <= i < k ==> is_digit(#[trigger] t[i]),
        k == t.len() || !is_digit(t[k as int]),
    ensures
        leading_digits(t) == k,
    decreases k,
{
    if k > 0 {
        let u = t.skip(1);
        assert forall|i: int| 0 <= i < (k - 1) as nat implies is_digit(#[trigger] u[i]) by {
            assert(u[i] == t[i + 1]);
        }
        if k < t.len() {
            assert(u[k - 1] == t[k as int]);
        }
        lemma_leading_digits_eq(u, (k - 1) as nat);
    }
}

proof fn lemma_digits_value_monotone(t: Seq<char>, j: nat, k: nat)
    requires
        j <= k <= t.len(),
    ensures
        digits_value(t.take(j as int)) <= digits_value(t.take(k as int)),
    decreases k,
{
    if j < k {
        lemma_digits_value_monotone(t, j, (k - 1) as nat);
        assert(t.take(k as int).drop_last() =~= t.take(k - 1));
    }
}

proof fn lemma_number_field_of_decimal(n: nat, rest: Seq<char>)
    requires
        n <= u32::MAX,
    ensures
        number_field(decimal(n) + "\n"@ + rest) == Some((n, decimal(n).len() + 1)),
{
    let ds = decimal(n);
    lemma_decimal(n);
    reveal_strlit("\n");
    let t = ds + "\n"@ + rest;
    assert(t[ds.len() as int] == '\n');
    assert forall|i: int| 0 <= i < ds.len() implies is_digit(#[trigger] t[i]) by {
        assert(t[i] == ds[i]);
    }
    lemma_leading_digits_eq(t, ds.len());
    assert(t.take(ds.len() as int) =~= ds);
}

proof fn lemma_keyed_field_prefix(key: Seq<char>, x: Seq<char>)
    ensures
        keyed_field(key + x, key) == match number_field(x) {
            Some((v, c)) => Some((v, key.len() + c)),
            None => None,
        },
{
    assert((key + x).take(key.len() as int) =~= key);
    assert((key + x).skip(key.len() as int) =~= x);
}

/// Decoding the text that `encode_cache` writes for a measurement gives that
/// measurement back.
pub proof fn lemma_cache_round_trip(m: Measurement)
    ensures
        decode_spec(encode_spec(m)) == Some(m),
{
    let d = m.download_speed_mbps as nat;
    let l = m.latency_ms as nat;
    let dk = "downloadSpeed = "@;
    let lk = "latency = "@;
    let nl = "\n"@;
    reveal_strlit("\n");
    let tail = lk + decimal(l) + nl;
    let t = encode_spec(m);
    assert(t =~= dk + (decimal(d) + nl + tail));
    lemma_number_field_of_decimal(d, tail);
    lemma_keyed_field_prefix(dk, decimal(d) + nl + tail);
    let c1 = dk.len() + decimal(d).len() + 1;
    let e = Seq::<char>::empty();
    assert(t.skip(c1 as int) =~= lk + (decimal(l) + nl + e));
    lemma_number_field_of_decimal(l, e);
    lemma_keyed_field_prefix(lk, decimal(l) + nl + e);
}

/// Whether `key` occurs in `s` starting at character `pos`.
fn match_key(s: &str, pos: usize, key: &str) -> (r: bool)
    requires
        pos <= s@.len(),
    ensures
        s@.len() <= usize::MAX,
        r == (key@.len() <= s@.skip(pos as int).len() && s@.skip(pos as int).take(
            key@.len() as int,
        ) == key@),
{
    let n = s.unicode_len();
    let kl = key.unicode_len();
    if kl > n - pos {
        return false;
    }
    let mut i: usize = 0;
    while i < kl
        invariant
            n == s@.len(),
            kl == key@.len(),
            pos + kl <= n,
            i <= kl,
            forall|j: int| 0 <= j < i ==> s@[pos + j] == key@[j],
        decreases kl - i,
    {
        if s.get_char(pos + i) != key.get_char(i) {
            assert(s@.skip(pos as int).take(kl as int)[i as int] == s@[pos + i]);
            return false;
        }
        i = i + 1;
    }
    assert(s@.skip(pos as int).take(kl as int) =~= key@);
    true
}

/// Reads a number field of `s` starting at character `pos`; on success gives
/// its value and the position just past its newline.
fn parse_number(s: &str, pos: usize) -> (r: Option<(u32, usize)>)
    requires
        pos <= s@.len(),
    ensures
        match number_field(s@.skip(pos as int)) {
            Some((v, c)) => r matches Some((rv, e)) && rv == v && e == pos + c && e <= s@.len(),
            None => r is None,
        },
{
    let ghost t = s@.skip(pos as int);
    let n = s.unicode_len();
    let mut i = pos;
    let mut v: u64 = 0;
    loop
        invariant
            n == s@.len(),
            t == s@.skip(pos as int),
            pos <= i <= n,
            forall|j: int| 0 <= j < i - pos ==> is_digit(#[trigger] t[j]),
            v == digits_value(t.take(i - pos)),
            v <= u32::MAX,
        ensures
            pos <= i <= n,
            forall|j: int| 0 <= j < i - pos ==> is_digit(#[trigger] t[j]),
            v == digits_value(t.take(i - pos)),
            v <= u32::MAX,
            i == n || !is_digit(t[i - pos]),
        decreases n - i,
    {
        if i == n {
            break;
        }
        let c = s.get_char(i);
        assert(t[i - pos] == c);
        if !('0' <= c && c <= '9') {
            break;
        }
        let nv = v * 10 + (c as u64 - '0' as u64);
        assert(t.take(i + 1 - pos).drop_last() =~= t.take(i - pos));
        assert(nv == digits_value(t.take(i + 1 - pos)));
        if nv > u32::MAX as u64 {
            proof {
                lemma_leading_digits_le(t);
                lemma_leading_digits_ge(t, (i + 1 - pos) as nat);
                lemma_digits_value_monotone(t, (i + 1 - pos) as nat, leading_digits(t));
            }
            return None;
        }
        v = nv;
        i = i + 1;
    }
    proof {
        lemma_leading_digits_eq(t, (i - pos) as nat);
    }
    if i == pos || i == n {
        return None;
    }
    if i - pos > 1 && s.get_char(pos) == '0' {
        assert(t[0] == s@[pos as int]);
        return None;
    }
    assert(i - pos > 1 ==> t[0] == s@[pos as int]);
    let c = s.get_char(i);
    assert(t[i - pos] == c);
    if c != '\n' {
        return None;
    }
    Some((v as u32, i + 1))
}

/// Reads `key` followed by a number field at character `pos` of `s`.
fn parse_keyed(s: &str, pos: usize, key: &str) -> (r: Option<(u32, usize)>)
    requires
        pos <= s@.len(),
    ensures
        match keyed_field(s@.skip(pos as int), key@) {
            Some((v, c)) => r matches Some((rv, e)) && rv == v && e == pos + c && e <= s@.len(),
            None => r is None,
        },
{
    if !match_key(s, pos, key) {
        return None;
    }
    let kl = key.unicode_len();
    assert(kl <= s@.len() - pos);
    assert(s@.skip(pos as int).skip(kl as int) =~= s@.skip(pos + kl));
    parse_number(s, pos + kl)
}

/// Reads a measurement back from cache text in the strict layout of
/// `encode_cache` (see `decode_spec`); text in any other shape gives `None`.
pub fn decode_cache(s: &str) -> (r: Option<Measurement>)
    ensures
        r == decode_spec(s@),
{
    assert(s@.skip(0) =~= s@);
    match parse_keyed(s, 0, "downloadSpeed = ") {
        None => None,
        Some((d, p)) => match parse_keyed(s, p, "latency = ") {
            None => None,
            Some((l, q)) => if q == s.unicode_len() {
                Some(Measurement { download_speed_mbps: d, latency_ms: l })
            } else {
                None
            },
        },
    }
}

} // verus!
