//! The records the relay client keeps and shows: its settings, read back from stored text,
//! the contact list, and the pairing payload it displays.
use vstd::prelude::*;

use vstd::string::*;

verus! {

/// The pairing payload this device shows as a QR code or link.
#[derive(Clone, Debug)]
pub struct PublicBundleDto {
    pub pairing_payload: String,
}

/// A contact as the contact list shows it.
#[derive(Clone, Debug)]
pub struct ContactDto {
    pub id: String,
    pub nickname: String,
    pub relay_user_id: String,
    pub fingerprint: String,
    pub verified: bool,
    pub sharing: bool,
    pub created_at: i64,
}

/// The client settings.
#[derive(Clone, Debug)]
pub struct SettingsDto {
    pub server_url: String,
    pub poll_interval_secs: i64,
    pub relay_user_id: String,
}

impl ContactDto {
    /// The contact of a stored row, whose flags are stored as integers (non-zero is set).
    pub fn from_row(
        id: String,
        nickname: String,
        relay_user_id: String,
        fingerprint: String,
        verified: i64,
        sharing: i64,
        created_at: i64,
    ) -> (c: ContactDto)
        ensures
            c.id@ == id@,
            c.nickname@ == nickname@,
            c.relay_user_id@ == relay_user_id@,
            c.fingerprint@ == fingerprint@,
            c.verified == (verified != 0),
            c.sharing == (sharing != 0),
            c.created_at == created_at,
    {
        ContactDto { id, nickname, relay_user_id, fingerprint, verified: verified != 0, sharing: sharing != 0, created_at }
    }
}

pub open spec fn is_digit(c: char) -> bool {
    '0' <= c && c <= '9'
}

/// Value of the decimal digits `s`.
pub open spec fn digits_value(s: Seq<char>) -> int
    decreases s.len(),
{
    if s.len() == 0 {
        0
    } else {
        digits_value(s.drop_last()) * 10 + ((s.last() as int) - ('0' as int))
    }
}

pub open spec fn all_digits(s: Seq<char>) -> bool {
    forall|i: int| 0 <= i < s.len() ==> is_digit(#[trigger] s[i])
}

/// The digits of a number after its optional sign.
pub open spec fn unsigned_part(s: Seq<char>) -> Seq<char> {
    if s.len() > 0 && (s[0] == '-' || s[0] == '+') {
        s.drop_first()
    } else {
        s
    }
}

/// The `i64` that `s` denotes in decimal: an optional `+` or `-`, then at least one digit
/// and nothing else, in range; `None` for anything else.
pub open spec fn spec_parse_i64(s: Seq<char>) -> Option<i64> {
    let body = unsigned_part(s);
    let v = if s.len() > 0 && s[0] == '-' {
        -digits_value(body)
    } else {
        digits_value(body)
    };
    if body.len() == 0 || !all_digits(body) {
        None
    } else if i64::MIN <= v && v <= i64::MAX {
        Some(v as i64)
    } else {
        None
    }
}

proof fn lemma_digits_value_nonneg(s: Seq<char>)
    requires
        all_digits(s),
    ensures
        digits_value(s) >= 0,
    decreases s.len(),
{
    if s.len() > 0 {
        lemma_digits_value_nonneg(s.drop_last());
    }
}

/// A prefix of a digit string denotes no more than the whole string.
proof fn lemma_digits_value_prefix(s: Seq<char>, k: int)
    requires
        all_digits(s),
        0 <= k <= s.len(),
    ensures
        digits_value(s.take(k)) <= digits_value(s),
    decreases s.len(),
{
    if k < s.len() {
        assert(s.drop_last().take(k) =~= s.take(k));
        lemma_digits_value_prefix(s.drop_last(), k);
        lemma_digits_value_nonneg(s.drop_last());
    } else {
        assert(s.take(k) =~= s);
    }
}

/// Parses a decimal `i64`: an optional `+` or `-`, then digits, nothing else.
pub fn parse_i64(text: &str) -> (r: Option<i64>)
    ensures
        r == spec_parse_i64(text@),
{
    let n: usize = text.unicode_len();
    let mut start: usize = 0;
    let mut neg = false;
    if n > 0 {
        let c0 = text.get_char(0);
        if c0 == '-' {
            neg = true;
            start = 1;
        } else if c0 == '+' {
            start = 1;
        }
    }
    let ghost body = unsigned_part(text@);
    assert(body =~= text@.subrange(start as int, n as int));
    if start == n {
        return None;
    }
    let limit: u64 = 9223372036854775808;
    let mut mag: u64 = 0;
    let mut i: usize = start;
    while i < n
        invariant
            start <= i <= n,
            n == text@.len(),
            body == text@.subrange(start as int, n as int),
            body == unsigned_part(text@),
            body.len() > 0,
            all_digits(body.take(i - start)),
            mag == digits_value(body.take(i - start)),
            mag <= limit,
            limit == 9223372036854775808u64,
        decreases n - i,
    {
        let c = text.get_char(i);
        if !('0' <= c && c <= '9') {
            assert(body[i - start] == c);
            assert(!is_digit(body[i - start]));
            assert(!all_digits(body));
            return None;
        }
        let d: u64 = (c as u32 - '0' as u32) as u64;
        assert(body.take(i - start + 1).drop_last() =~= body.take(i - start));
        assert(body.take(i - start + 1).last() == c);
        assert(d == (c as int) - ('0' as int));
        assert(digits_value(body.take(i - start + 1)) == mag * 10 + d);
        if mag > (limit - d) / 10 {
            proof {
                assert(mag * 10 + d > limit) by (nonlinear_arith)
                    requires
                        mag > (limit - d) / 10,
                        d <= 9,
                        limit == 9223372036854775808u64,
                ;
                if all_digits(body) {
                    assert(all_digits(body.take(i - start + 1))) by {
                        assert forall|t: int| 0 <= t < body.take(i - start + 1).len() implies is_digit(
                            #[trigger] body.take(i - start + 1)[t],
                        ) by {
                            assert(body.take(i - start + 1)[t] == body[t]);
                        }
                    }
                    lemma_digits_value_prefix(body, i - start + 1);
                    assert(digits_value(body) > limit);
                }
            }
            return None;
        }
        assert(mag * 10 + d <= limit) by (nonlinear_arith)
            requires
                mag <= (limit - d) / 10,
                d <= 9,
        ;
        mag = mag * 10 + d;
        assert(all_digits(body.take(i - start + 1))) by {
            assert forall|t: int| 0 <= t < body.take(i - start + 1).len() implies is_digit(
                #[trigger] body.take(i - start + 1)[t],
            ) by {
                if t < i - start {
                    assert(body.take(i - start + 1)[t] == body.take(i - start)[t]);
                }
            }
        }
        i = i + 1;
    }
    assert(body.take(n - start) =~= body);
    if neg {
        if mag == limit {
            Some(i64::MIN)
        } else {
            Some(-(mag as i64))
        }
    } else {
        if mag > 9223372036854775807u64 {
            None
        } else {
            Some(mag as i64)
        }
    }
}

/// The ten decimal digits.
pub open spec fn decimal_chars() -> Seq<char> {
    seq!['0', '1', '2', '3', '4', '5', '6', '7', '8', '9']
}

/// The decimal digits of `n`, most significant first, without leading zeros.
pub open spec fn decimal_digits(n: nat) -> Seq<char>
    decreases n,
{
    if n < 10 {
        seq![decimal_chars()[n as int]]
    } else {
        decimal_digits(n / 10).push(decimal_chars()[(n % 10) as int])
    }
}

/// The decimal text of `i`: its digits, behind a `-` when it is negative.
pub open spec fn i64_text(i: i64) -> Seq<char> {
    if i < 0 {
        seq!['-'] + decimal_digits((-i) as nat)
    } else {
        decimal_digits(i as nat)
    }
}

fn decimal_digit(n: u64) -> (c: char)
    requires
        n < 10,
    ensures
        c == decimal_chars()[n as int],
{
    if n == 0 { '0' }
    else if n == 1 { '1' }
    else if n == 2 { '2' }
    else if n == 3 { '3' }
    else if n == 4 { '4' }
    else if n == 5 { '5' }
    else if n == 6 { '6' }
    else if n == 7 { '7' }
    else if n == 8 { '8' }
    else { '9' }
}

fn push_decimal(s: &mut String, n: u64)
    ensures
        final(s)@ == old(s)@ + decimal_digits(n as nat),
    decreases n,
{
    if n >= 10 {
        push_decimal(s, n / 10);
    }
    s.push(decimal_digit(n % 10));
    proof {
        if n < 10 {
            assert(n % 10 == n);
        }
    }
}

/// The decimal text of an `i64`, as an integer setting is stored.
pub fn format_i64(i: i64) -> (text: String)
    ensures
        text@ == i64_text(i),
{
    let mut text = String::new();
    if i < 0 {
        text.push('-');
        let mag: u64 = ((-(i + 1)) as u64) + 1;
        push_decimal(&mut text, mag);
    } else {
        push_decimal(&mut text, i as u64);
    }
    text
}

proof fn lemma_decimal_char_value(k: int)
    requires
        0 <= k < 10,
    ensures
        (decimal_chars()[k] as int) - ('0' as int) == k,
        is_digit(decimal_chars()[k]),
{
    assert(('0' as int) == 48 && ('1' as int) == 49 && ('2' as int) == 50 && ('3' as int) == 51
        && ('4' as int) == 52 && ('5' as int) == 53 && ('6' as int) == 54 && ('7' as int) == 55
        && ('8' as int) == 56 && ('9' as int) == 57);
}

proof fn lemma_decimal_digits_parse(n: nat)
    ensures
        decimal_digits(n).len() > 0,
        all_digits(decimal_digits(n)),
        digits_value(decimal_digits(n)) == n,
    decreases n,
{
    lemma_decimal_char_value((n % 10) as int);
    if n < 10 {
        assert(n % 10 == n);
        let s = decimal_digits(n);
        assert(s.drop_last() =~= Seq::<char>::empty());
        assert(s.last() == decimal_chars()[n as int]);
        assert(digits_value(s.drop_last()) == 0);
        assert(digits_value(s) == digits_value(s.drop_last()) * 10 + ((s.last() as int) - ('0' as int)));
    } else {
        lemma_decimal_digits_parse(n / 10);
        let s = decimal_digits(n);
        assert(s.drop_last() =~= decimal_digits(n / 10));
        assert(n == (n / 10) * 10 + n % 10);
        assert(s.last() == decimal_chars()[(n % 10) as int]);
        assert(digits_value(s) == digits_value(s.drop_last()) * 10 + ((s.last() as int) - ('0' as int)));
        assert forall|i: int| 0 <= i < s.len() implies is_digit(#[trigger] s[i]) by {
            if i < s.len() - 1 {
                assert(s[i] == decimal_digits(n / 10)[i]);
            }
        }
    }
}

/// An integer written as its decimal text reads back as itself: a poll interval that was
/// stored is the one read back.
pub proof fn lemma_stored_int_round_trip(i: i64)
    ensures
        spec_parse_i64(i64_text(i)) == Some(i),
        forall|t: String, default: i64| t@ == i64_text(i) ==> #[trigger] stored_int(Some(t), default) == i,
{
    if i < 0 {
        let m = (-i) as nat;
        lemma_decimal_digits_parse(m);
        let t = i64_text(i);
        assert(unsigned_part(t) =~= decimal_digits(m));
    } else {
        lemma_decimal_digits_parse(i as nat);
        let t = i64_text(i);
        let d = decimal_digits(i as nat);
        assert(d[0] != '-' && d[0] != '+') by {
            assert(is_digit(d[0]));
        }
        assert(unsigned_part(t) =~= d);
    }
}

/// The stored value of an integer setting: the stored text if it parses, else `default`.
pub open spec fn stored_int(stored: Option<String>, default: i64) -> i64 {
    match stored {
        Some(t) => match spec_parse_i64(t@) {
            Some(v) => v,
            None => default,
        },
        None => default,
    }
}

/// The stored value of a text setting, or the empty text.
pub open spec fn stored_text(stored: Option<String>) -> Seq<char> {
    match stored {
        Some(t) => t@,
        None => Seq::empty(),
    }
}

/// The settings read back from their stored texts (`None` for a setting never stored): the
/// server URL and relay user id default to empty, the poll interval to 30 seconds, also
/// when its stored text is not a number.
pub fn settings_from_stored(
    server_url: Option<String>,
    poll_interval_secs: Option<String>,
    relay_user_id: Option<String>,
) -> (s: SettingsDto)
    ensures
        s.server_url@ == stored_text(server_url),
        s.poll_interval_secs == stored_int(poll_interval_secs, 30),
        s.relay_user_id@ == stored_text(relay_user_id),
{
    let poll: i64 = match &poll_interval_secs {
        Some(t) => match parse_i64(t.as_str()) {
            Some(v) => v,
            None => 30,
        },
        None => 30,
    };
    let server_url = match server_url {
        Some(u) => u,
        None => String::new(),
    };
    let relay_user_id = match relay_user_id {
        Some(u) => u,
        None => String::new(),
    };
    SettingsDto { server_url, poll_interval_secs: poll, relay_user_id }
}

} // verus!
