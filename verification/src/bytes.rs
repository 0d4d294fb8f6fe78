//! Byte-string helpers: lexicographic order (as `Ord` on byte slices orders them),
//! equality, big-endian integer encoding, conversion into fixed-size arrays, and
//! lower-case hexadecimal text, plain or grouped.
use vstd::prelude::*;

verus! {

// ---------------------------------------------------------------------------------------
// Lexicographic order
// ---------------------------------------------------------------------------------------

/// `a` sorts strictly before `b`: at the first position where they differ the byte of `a`
/// is smaller, or `a` is a proper prefix of `b`.
pub open spec fn lex_lt(a: Seq<u8>, b: Seq<u8>) -> bool
    decreases a.len(),
{
    if a.len() == 0 {
        b.len() > 0
    } else if b.len() == 0 {
        false
    } else if a[0] != b[0] {
        a[0] < b[0]
    } else {
        lex_lt(a.drop_first(), b.drop_first())
    }
}

/// `a` sorts before `b` or equals it.
pub open spec fn lex_le(a: Seq<u8>, b: Seq<u8>) -> bool {
    lex_lt(a, b) || a == b
}

/// The strict order is irreflexive.
pub proof fn lemma_lex_lt_irreflexive(a: Seq<u8>)
    ensures
        !lex_lt(a, a),
    decreases a.len(),
{
    if a.len() > 0 {
        lemma_lex_lt_irreflexive(a.drop_first());
    }
}

/// Any two byte strings are comparable: exactly one sorts first, or they are equal.
pub proof fn lemma_lex_trichotomy(a: Seq<u8>, b: Seq<u8>)
    ensures
        lex_lt(a, b) || a == b || lex_lt(b, a),
        !(lex_lt(a, b) && lex_lt(b, a)),
        !(lex_lt(a, b) && a == b),
    decreases a.len(),
{
    lemma_lex_lt_irreflexive(a);
    if a.len() > 0 && b.len() > 0 && a[0] == b[0] {
        lemma_lex_trichotomy(a.drop_first(), b.drop_first());
        if a.drop_first() == b.drop_first() {
            assert(a =~= seq![a[0]] + a.drop_first());
            assert(b =~= seq![b[0]] + b.drop_first());
        }
    } else if a.len() == 0 && b.len() == 0 {
        assert(a =~= b);
    }
}

proof fn lemma_lex_lt_step(a: Seq<u8>, b: Seq<u8>, i: int)
    requires
        0 <= i < a.len(),
        i < b.len(),
        a[i] == b[i],
    ensures
        lex_lt(a.skip(i), b.skip(i)) == lex_lt(a.skip(i + 1), b.skip(i + 1)),
{
    assert(a.skip(i).drop_first() =~= a.skip(i + 1));
    assert(b.skip(i).drop_first() =~= b.skip(i + 1));
}

/// Whether `a` sorts strictly before `b`.
pub fn bytes_lt(a: &[u8], b: &[u8]) -> (r: bool)
    ensures
        r == lex_lt(a@, b@),
{
    let mut i: usize = 0;
    assert(a@.skip(0) =~= a@);
    assert(b@.skip(0) =~= b@);
    while i < a.len() && i < b.len()
        invariant
            i <= a@.len(),
            i <= b@.len(),
            lex_lt(a@, b@) == lex_lt(a@.skip(i as int), b@.skip(i as int)),
        decreases a@.len() - i,
    {
        if a[i] != b[i] {
            return a[i] < b[i];
        }
        proof {
            lemma_lex_lt_step(a@, b@, i as int);
        }
        i = i + 1;
    }
    i == a.len() && i < b.len()
}

/// Whether `a` and `b` hold the same bytes.
pub fn bytes_eq(a: &[u8], b: &[u8]) -> (r: bool)
    ensures
        r == (a@ == b@),
{
    if a.len() != b.len() {
        return false;
    }
    let mut i: usize = 0;
    while i < a.len()
        invariant
            a@.len() == b@.len(),
            i <= a@.len(),
            forall|j: int| 0 <= j < i ==> a@[j] == b@[j],
        decreases a@.len() - i,
    {
        if a[i] != b[i] {
            return false;
        }
        i = i + 1;
    }
    assert(a@ =~= b@);
    true
}

/// Whether `a` sorts before `b` or equals it.
pub fn bytes_le(a: &[u8], b: &[u8]) -> (r: bool)
    ensures
        r == lex_le(a@, b@),
{
    bytes_lt(a, b) || bytes_eq(a, b)
}

// ---------------------------------------------------------------------------------------
// Building byte strings
// ---------------------------------------------------------------------------------------

/// Appends `src` to `dst`.
pub fn append_bytes(dst: &mut Vec<u8>, src: &[u8])
    ensures
        final(dst)@ == old(dst)@ + src@,
{
    dst.extend_from_slice(src);
}

/// The bytes of `src`, copied into a new vector.
pub fn copy_bytes(src: &[u8]) -> (out: Vec<u8>)
    ensures
        out@ == src@,
{
    let mut out: Vec<u8> = Vec::new();
    out.extend_from_slice(src);
    assert(out@ =~= src@);
    out
}

/// The bytes of `src`, as a fixed-size array.
pub fn to_array<const N: usize>(src: &[u8]) -> (out: [u8; N])
    requires
        src@.len() == N,
    ensures
        out@ == src@,
{
    let mut out = [0u8; N];
    let mut i: usize = 0;
    while i < N
        invariant
            src@.len() == N,
            out@.len() == N,
            i <= N,
            forall|j: int| 0 <= j < i ==> out@[j] == src@[j],
        decreases N - i,
    {
        out[i] = src[i];
        i = i + 1;
    }
    assert(out@ =~= src@);
    out
}

/// The first `n` bytes of `src`, copied.
pub fn take_bytes(src: &[u8], n: usize) -> (out: Vec<u8>)
    requires
        n <= src@.len(),
    ensures
        out@ == src@.take(n as int),
{
    let mut out: Vec<u8> = Vec::new();
    let mut i: usize = 0;
    while i < n
        invariant
            n <= src@.len(),
            i <= n,
            out@ == src@.take(i as int),
        decreases n - i,
    {
        out.push(src[i]);
        i = i + 1;
        assert(out@ =~= src@.take(i as int));
    }
    out
}

/// The bytes of `src` from position `n` on, copied.
pub fn skip_bytes(src: &[u8], n: usize) -> (out: Vec<u8>)
    requires
        n <= src@.len(),
    ensures
        out@ == src@.skip(n as int),
{
    let mut out: Vec<u8> = Vec::new();
    let mut i: usize = n;
    while i < src.len()
        invariant
            n <= i <= src@.len(),
            out@ == src@.subrange(n as int, i as int),
        decreases src@.len() - i,
    {
        out.push(src[i]);
        i = i + 1;
        assert(out@ =~= src@.subrange(n as int, i as int));
    }
    assert(out@ =~= src@.skip(n as int));
    out
}

// ---------------------------------------------------------------------------------------
// Big-endian integers
// ---------------------------------------------------------------------------------------

/// Big-endian bytes of a 32-bit integer (as `u32::to_be_bytes`).
pub open spec fn be_u32(x: u32) -> Seq<u8> {
    seq![
        (x / 0x1000000) as u8,
        ((x / 0x10000) % 0x100) as u8,
        ((x / 0x100) % 0x100) as u8,
        (x % 0x100) as u8,
    ]
}

/// Big-endian bytes of a 64-bit integer (as `u64::to_be_bytes`).
pub open spec fn be_u64(x: u64) -> Seq<u8> {
    seq![
        (x / 0x100000000000000) as u8,
        ((x / 0x1000000000000) % 0x100) as u8,
        ((x / 0x10000000000) % 0x100) as u8,
        ((x / 0x100000000) % 0x100) as u8,
        ((x / 0x1000000) % 0x100) as u8,
        ((x / 0x10000) % 0x100) as u8,
        ((x / 0x100) % 0x100) as u8,
        (x % 0x100) as u8,
    ]
}

proof fn lemma_div_mod_step(x: int, d: int)
    requires
        0 <= x,
        0 < d,
    ensures
        x / d == (x / (d * 256)) * 256 + (x / d) % 256,
{
    assert(x / (d * 256) == (x / d) / 256) by (nonlinear_arith)
        requires
            0 <= x,
            0 < d,
    {
        vstd::arithmetic::div_mod::lemma_div_denominator(x, d, 256);
    }
    vstd::arithmetic::div_mod::lemma_fundamental_div_mod(x / d, 256);
}

/// Big-endian encoding is injective.
pub proof fn lemma_be_u32_injective(x: u32, y: u32)
    requires
        be_u32(x) == be_u32(y),
    ensures
        x == y,
{
    assert(be_u32(x)[0] == be_u32(y)[0]);
    assert(be_u32(x)[1] == be_u32(y)[1]);
    assert(be_u32(x)[2] == be_u32(y)[2]);
    assert(be_u32(x)[3] == be_u32(y)[3]);
    lemma_div_mod_step(x as int, 0x10000);
    lemma_div_mod_step(y as int, 0x10000);
    lemma_div_mod_step(x as int, 0x100);
    lemma_div_mod_step(y as int, 0x100);
    lemma_div_mod_step(x as int, 1);
    lemma_div_mod_step(y as int, 1);
}

/// Big-endian encoding is injective.
pub proof fn lemma_be_u64_injective(x: u64, y: u64)
    requires
        be_u64(x) == be_u64(y),
    ensures
        x == y,
{
    assert(be_u64(x)[0] == be_u64(y)[0]);
    assert(be_u64(x)[1] == be_u64(y)[1]);
    assert(be_u64(x)[2] == be_u64(y)[2]);
    assert(be_u64(x)[3] == be_u64(y)[3]);
    assert(be_u64(x)[4] == be_u64(y)[4]);
    assert(be_u64(x)[5] == be_u64(y)[5]);
    assert(be_u64(x)[6] == be_u64(y)[6]);
    assert(be_u64(x)[7] == be_u64(y)[7]);
    lemma_div_mod_step(x as int, 0x1000000000000);
    lemma_div_mod_step(y as int, 0x1000000000000);
    lemma_div_mod_step(x as int, 0x10000000000);
    lemma_div_mod_step(y as int, 0x10000000000);
    lemma_div_mod_step(x as int, 0x100000000);
    lemma_div_mod_step(y as int, 0x100000000);
    lemma_div_mod_step(x as int, 0x1000000);
    lemma_div_mod_step(y as int, 0x1000000);
    lemma_div_mod_step(x as int, 0x10000);
    lemma_div_mod_step(y as int, 0x10000);
    lemma_div_mod_step(x as int, 0x100);
    lemma_div_mod_step(y as int, 0x100);
    lemma_div_mod_step(x as int, 1);
    lemma_div_mod_step(y as int, 1);
}

/// `x.to_be_bytes()`, appended.
pub fn push_be_u32(dst: &mut Vec<u8>, x: u32)
    ensures
        final(dst)@ == old(dst)@ + be_u32(x),
{
    dst.push((x / 0x1000000) as u8);
    dst.push(((x / 0x10000) % 0x100) as u8);
    dst.push(((x / 0x100) % 0x100) as u8);
    dst.push((x % 0x100) as u8);
    assert(dst@ =~= old(dst)@ + be_u32(x));
}

/// `x.to_be_bytes()`, appended.
pub fn push_be_u64(dst: &mut Vec<u8>, x: u64)
    ensures
        final(dst)@ == old(dst)@ + be_u64(x),
{
    dst.push((x / 0x100000000000000) as u8);
    dst.push(((x / 0x1000000000000) % 0x100) as u8);
    dst.push(((x / 0x10000000000) % 0x100) as u8);
    dst.push(((x / 0x100000000) % 0x100) as u8);
    dst.push(((x / 0x1000000) % 0x100) as u8);
    dst.push(((x / 0x10000) % 0x100) as u8);
    dst.push(((x / 0x100) % 0x100) as u8);
    dst.push((x % 0x100) as u8);
    assert(dst@ =~= old(dst)@ + be_u64(x));
}

// ---------------------------------------------------------------------------------------
// Hexadecimal text
// ---------------------------------------------------------------------------------------

/// Lower-case hexadecimal digits, by value.
pub open spec fn hex_digits() -> Seq<char> {
    seq!['0', '1', '2', '3', '4', '5', '6', '7', '8', '9', 'a', 'b', 'c', 'd', 'e', 'f']
}

/// Two lower-case hex digits of a byte (as `format!("{:02x}", b)`).
pub open spec fn hex_byte(b: u8) -> Seq<char> {
    seq![hex_digits()[(b / 16) as int], hex_digits()[(b % 16) as int]]
}

/// Hex digits of every byte, without separators.
pub open spec fn hex_text(s: Seq<u8>) -> Seq<char>
    decreases s.len(),
{
    if s.len() == 0 {
        Seq::empty()
    } else {
        hex_text(s.drop_last()) + hex_byte(s.last())
    }
}

/// Hex digits of every byte, bytes taken two at a time and the pairs joined by one space:
/// a space stands before every byte at a non-zero even position.
pub open spec fn hex_groups(s: Seq<u8>) -> Seq<char>
    decreases s.len(),
{
    if s.len() == 0 {
        Seq::empty()
    } else {
        let k = s.len() - 1;
        hex_groups(s.drop_last()) + (if k > 0 && k % 2 == 0 {
            seq![' ']
        } else {
            Seq::empty()
        }) + hex_byte(s.last())
    }
}

/// The lower-case hex digit of a value below 16.
pub fn hex_digit(n: u8) -> (c: char)
    requires
        n < 16,
    ensures
        c == hex_digits()[n as int],
{
    if n == 0 { '0' }
    else if n == 1 { '1' }
    else if n == 2 { '2' }
    else if n == 3 { '3' }
    else if n == 4 { '4' }
    else if n == 5 { '5' }
    else if n == 6 { '6' }
    else if n == 7 { '7' }
    else if n == 8 { '8' }
    else if n == 9 { '9' }
    else if n == 10 { 'a' }
    else if n == 11 { 'b' }
    else if n == 12 { 'c' }
    else if n == 13 { 'd' }
    else if n == 14 { 'e' }
    else { 'f' }
}

/// Hex digits of every byte, without separators.
pub fn to_hex(bytes: &[u8]) -> (text: String)
    ensures
        text@ == hex_text(bytes@),
        text@.len() == 2 * bytes@.len(),
{
    proof {
        lemma_hex_text_len(bytes@);
    }
    let mut text = String::new();
    let mut i: usize = 0;
    while i < bytes.len()
        invariant
            i <= bytes@.len(),
            text@ == hex_text(bytes@.take(i as int)),
        decreases bytes@.len() - i,
    {
        let b = bytes[i];
        text.push(hex_digit(b / 16));
        text.push(hex_digit(b % 16));
        assert(bytes@.take(i + 1).drop_last() =~= bytes@.take(i as int));
        i = i + 1;
    }
    assert(bytes@.take(bytes@.len() as int) =~= bytes@);
    text
}

/// Hex digits of the bytes, two bytes (four digits) per group, groups separated by a single
/// space; e.g. `[0xde, 0xad, 0xbe]` gives `"dead be"`.
pub fn to_hex_groups(bytes: &[u8]) -> (text: String)
    ensures
        text@ == hex_groups(bytes@),
        text@.len() == hex_groups_len(bytes@.len()),
{
    proof {
        lemma_hex_groups_shape(bytes@);
    }
    let mut text = String::new();
    let mut i: usize = 0;
    while i < bytes.len()
        invariant
            i <= bytes@.len(),
            text@ == hex_groups(bytes@.take(i as int)),
        decreases bytes@.len() - i,
    {
        if i > 0 && i % 2 == 0 {
            text.push(' ');
        }
        let b = bytes[i];
        text.push(hex_digit(b / 16));
        text.push(hex_digit(b % 16));
        assert(bytes@.take(i + 1).drop_last() =~= bytes@.take(i as int));
        i = i + 1;
    }
    assert(bytes@.take(bytes@.len() as int) =~= bytes@);
    text
}

/// Plain hex text has two digits per byte.
pub proof fn lemma_hex_text_len(s: Seq<u8>)
    ensures
        hex_text(s).len() == 2 * s.len(),
    decreases s.len(),
{
    if s.len() > 0 {
        lemma_hex_text_len(s.drop_last());
    }
}

/// Length of the grouped hex text of `n` bytes: two digits per byte and one space between
/// every two groups of two bytes.
pub open spec fn hex_groups_len(n: nat) -> nat {
    if n == 0 {
        0
    } else {
        (2 * n + (n + 1) / 2 - 1) as nat
    }
}

proof fn lemma_hex_digit_char(n: int)
    requires
        0 <= n < 16,
    ensures
        hex_digits()[n] != ' ',
        hex_digits().contains(hex_digits()[n]),
{
    assert(hex_digits().len() == 16);
    if n == 0 { assert(hex_digits()[n] == '0'); }
    else if n == 1 { assert(hex_digits()[n] == '1'); }
    else if n == 2 { assert(hex_digits()[n] == '2'); }
    else if n == 3 { assert(hex_digits()[n] == '3'); }
    else if n == 4 { assert(hex_digits()[n] == '4'); }
    else if n == 5 { assert(hex_digits()[n] == '5'); }
    else if n == 6 { assert(hex_digits()[n] == '6'); }
    else if n == 7 { assert(hex_digits()[n] == '7'); }
    else if n == 8 { assert(hex_digits()[n] == '8'); }
    else if n == 9 { assert(hex_digits()[n] == '9'); }
    else if n == 10 { assert(hex_digits()[n] == 'a'); }
    else if n == 11 { assert(hex_digits()[n] == 'b'); }
    else if n == 12 { assert(hex_digits()[n] == 'c'); }
    else if n == 13 { assert(hex_digits()[n] == 'd'); }
    else if n == 14 { assert(hex_digits()[n] == 'e'); }
    else { assert(hex_digits()[n] == 'f'); }
}

/// The shape of grouped hex text: `2n + (n + 1) / 2 - 1` characters for `n > 0` bytes (none
/// for none), a space at every position `4, 9, 14, ...` (those equal to 4 modulo 5) and a
/// lower-case hex digit everywhere else.
pub proof fn lemma_hex_groups_shape(s: Seq<u8>)
    ensures
        hex_groups(s).len() == hex_groups_len(s.len()),
        forall|i: int| 0 <= i < hex_groups(s).len() ==> (#[trigger] hex_groups(s)[i] == ' ') == (i % 5 == 4),
        forall|i: int|
            0 <= i < hex_groups(s).len() && i % 5 != 4 ==> hex_digits().contains(#[trigger] hex_groups(s)[i]),
    decreases s.len(),
{
    if s.len() > 0 {
        let p = s.drop_last();
        lemma_hex_groups_shape(p);
        let k = p.len();
        let sep: Seq<char> = if k > 0 && k % 2 == 0 {
            seq![' ']
        } else {
            Seq::empty()
        };
        let b = s.last();
        let h = hex_byte(b);
        lemma_hex_digit_char((b / 16) as int);
        lemma_hex_digit_char((b % 16) as int);
        let gp = hex_groups(p);
        let g = hex_groups(s);
        assert(g == gp + sep + h);
        let base = gp.len() + sep.len();
        assert(base % 5 != 4 && (base + 1) % 5 != 4 && g.len() == base + 2 && g.len() == hex_groups_len(s.len())
            && (sep.len() == 1 ==> gp.len() % 5 == 4)) by {
            if k == 0 {
            } else if k % 2 == 0 {
                assert(gp.len() == 2 * k + k / 2 - 1);
                assert((2 * k + k / 2 - 1) % 5 == 4);
            } else {
                assert(gp.len() == 2 * k + (k + 1) / 2 - 1);
            }
        }
        assert forall|i: int| 0 <= i < g.len() implies (#[trigger] g[i] == ' ') == (i % 5 == 4) by {
            if i < gp.len() {
                assert(g[i] == gp[i]);
            } else if i < base {
                assert(g[i] == ' ');
            } else if i == base {
                assert(g[i] == h[0]);
            } else {
                assert(g[i] == h[1]);
            }
        }
        assert forall|i: int| 0 <= i < g.len() && i % 5 != 4 implies hex_digits().contains(#[trigger] g[i]) by {
            if i < gp.len() {
                assert(g[i] == gp[i]);
            } else if i == base {
                assert(g[i] == h[0]);
            } else if i == base + 1 {
                assert(g[i] == h[1]);
            }
        }
    }
}

pub open spec fn not_space(c: char) -> bool {
    c != ' '
}

/// Removing the spaces from the grouped text leaves the plain hex text.
pub proof fn lemma_hex_groups_without_spaces(s: Seq<u8>)
    ensures
        hex_groups(s).filter(|c: char| not_space(c)) == hex_text(s),
    decreases s.len(),
{
    broadcast use vstd::seq_lib::group_filter_ensures;
    if s.len() > 0 {
        lemma_hex_groups_without_spaces(s.drop_last());
        let k = s.len() - 1;
        let sep: Seq<char> = if k > 0 && k % 2 == 0 {
            seq![' ']
        } else {
            Seq::empty()
        };
        let f = |c: char| not_space(c);
        Seq::filter_distributes_over_add(hex_groups(s.drop_last()) + sep, hex_byte(s.last()), f);
        Seq::filter_distributes_over_add(hex_groups(s.drop_last()), sep, f);
        assert(sep.filter(f) =~= Seq::<char>::empty()) by {
            reveal_with_fuel(Seq::filter, 2);
        }
        let h = hex_byte(s.last());
        assert(h.filter(f) =~= h) by {
            reveal_with_fuel(Seq::filter, 3);
            assert(h.drop_last().drop_last() =~= Seq::<char>::empty());
            assert(h.drop_last() =~= seq![h[0]]);
        }
    } else {
        assert(hex_groups(s).filter(|c: char| not_space(c)) =~= Seq::<char>::empty()) by {
            reveal_with_fuel(Seq::filter, 1);
        }
    }
}

} // verus!
