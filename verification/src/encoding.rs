//! Canonical text encodings used for binding digests: SHA-256 through
//! `ring`, lower-case hexadecimal, decimal numbers, JSON string escaping and
//! the hyphenated form of identifiers.
use vstd::prelude::*;
use vstd::string::StringSliceAdditionalSpecFns;

verus! {

/// The SHA-256 digest of a byte sequence.
pub uninterp spec fn sha256(data: Seq<u8>) -> Seq<u8>;

/// The largest input, in bytes, that SHA-256 accepts (2^61 - 1).
pub const SHA256_MAX_INPUT_BYTES: u64 = 0x1fff_ffff_ffff_ffff;

/// SHA-256 of `data`.
///
/// Calls `ring::digest::digest(&ring::digest::SHA256, data)`. The contract
/// names the digest as a function of the input bytes alone and states its
/// documented 32-byte length; `ring` panics on inputs of 2^61 bytes or more,
/// which `requires` leaves out.
#[verifier::external_body]
pub(crate) fn sha256_digest(data: &[u8]) -> (r: Vec<u8>)
    requires
        data@.len() <= SHA256_MAX_INPUT_BYTES,
    ensures
        r@ == sha256(data@),
        r@.len() == 32,
{
    ring::digest::digest(&ring::digest::SHA256, data).as_ref().to_vec()
}

pub const HEX_DIGITS: [char; 16] = [
    '0', '1', '2', '3', '4', '5', '6', '7', '8', '9', 'a', 'b', 'c', 'd', 'e', 'f',
];

/// Lower-case hexadecimal digit of a value below 16.
pub open spec fn hex_char(v: int) -> char {
    HEX_DIGITS@[v]
}

/// Lower-case hexadecimal text of a byte sequence, two digits per byte.
pub open spec fn hex_lower(s: Seq<u8>) -> Seq<char>
    decreases s.len(),
{
    if s.len() == 0 {
        Seq::empty()
    } else {
        hex_lower(s.drop_last()) + seq![hex_char((s.last() / 16) as int), hex_char((s.last() % 16) as int)]
    }
}

pub proof fn lemma_hex_lower_len(s: Seq<u8>)
    ensures
        hex_lower(s).len() == 2 * s.len(),
    decreases s.len(),
{
    if s.len() > 0 {
        lemma_hex_lower_len(s.drop_last());
    }
}

/// Lower-case hexadecimal text of a byte slice.
pub fn hex_encode(bytes: &[u8]) -> (r: Vec<char>)
    ensures
        r@ == hex_lower(bytes@),
{
    let mut out: Vec<char> = Vec::new();
    let n = bytes.len();
    for i in 0..n
        invariant
            n == bytes@.len(),
            out@ == hex_lower(bytes@.take(i as int)),
    {
        let b = bytes[i];
        let hi = HEX_DIGITS[(b / 16) as usize];
        let lo = HEX_DIGITS[(b % 16) as usize];
        proof {
            assert(bytes@.take(i + 1).drop_last() =~= bytes@.take(i as int));
        }
        out.push(hi);
        out.push(lo);
    }
    proof {
        assert(bytes@.take(n as int) =~= bytes@);
    }
    out
}

/// Lower-case hexadecimal SHA-256 of the UTF-8 bytes of a text.
pub fn sha256_hex(text: &str) -> (r: String)
    requires
        text.spec_bytes().len() <= SHA256_MAX_INPUT_BYTES,
    ensures
        r@ == hex_lower(sha256(text.spec_bytes())),
        r@.len() == 64,
{
    let digest = sha256_digest(text.as_bytes());
    let hex = hex_encode(digest.as_slice());
    proof {
        lemma_hex_lower_len(digest@);
    }
    crate::text::string_from_chars(hex.as_slice())
}

/// Decimal digit character of a value below 10.
pub open spec fn digit_char(v: int) -> char {
    HEX_DIGITS@[v]
}

/// Decimal text of a natural number, without leading zeros.
pub open spec fn decimal(n: nat) -> Seq<char>
    decreases n,
{
    if n < 10 {
        seq![digit_char(n as int)]
    } else {
        decimal(n / 10) + seq![digit_char((n % 10) as int)]
    }
}

/// Decimal text of a number.
pub fn decimal_text(n: u64) -> (r: Vec<char>)
    ensures
        r@ == decimal(n as nat),
    decreases n,
{
    if n < 10 {
        let mut v: Vec<char> = Vec::new();
        v.push(HEX_DIGITS[n as usize]);
        proof {
            assert(v@ =~= seq![digit_char(n as int)]);
        }
        v
    } else {
        let mut v = decimal_text(n / 10);
        v.push(HEX_DIGITS[(n % 10) as usize]);
        v
    }
}

/// The JSON escape of one character inside a string literal, as
/// `serde_json` writes it.
pub open spec fn json_escape_char(c: char) -> Seq<char> {
    if c == '"' {
        seq!['\\', '"']
    } else if c == '\\' {
        seq!['\\', '\\']
    } else if c == '\u{8}' {
        seq!['\\', 'b']
    } else if c == '\u{c}' {
        seq!['\\', 'f']
    } else if c == '\n' {
        seq!['\\', 'n']
    } else if c == '\r' {
        seq!['\\', 'r']
    } else if c == '\t' {
        seq!['\\', 't']
    } else if (c as u32) < 32 {
        seq!['\\', 'u', '0', '0', hex_char(((c as u32) / 16) as int), hex_char(((c as u32) % 16) as int)]
    } else {
        seq![c]
    }
}

/// The JSON escape of a text (without the surrounding quotes).
pub open spec fn json_escape(s: Seq<char>) -> Seq<char>
    decreases s.len(),
{
    if s.len() == 0 {
        Seq::empty()
    } else {
        json_escape(s.drop_last()) + json_escape_char(s.last())
    }
}

/// A JSON string literal holding the text.
pub open spec fn json_string(s: Seq<char>) -> Seq<char> {
    seq!['"'] + json_escape(s) + seq!['"']
}

fn push_json_escaped(out: &mut Vec<char>, c: char)
    ensures
        final(out)@ == old(out)@ + json_escape_char(c),
{
    if c == '"' {
        out.push('\\');
        out.push('"');
    } else if c == '\\' {
        out.push('\\');
        out.push('\\');
    } else if c == '\u{8}' {
        out.push('\\');
        out.push('b');
    } else if c == '\u{c}' {
        out.push('\\');
        out.push('f');
    } else if c == '\n' {
        out.push('\\');
        out.push('n');
    } else if c == '\r' {
        out.push('\\');
        out.push('r');
    } else if c == '\t' {
        out.push('\\');
        out.push('t');
    } else if (c as u32) < 32 {
        let v: u32 = c as u32;
        out.push('\\');
        out.push('u');
        out.push('0');
        out.push('0');
        out.push(HEX_DIGITS[(v / 16) as usize]);
        out.push(HEX_DIGITS[(v % 16) as usize]);
    } else {
        out.push(c);
    }
    proof {
        assert(final(out)@ =~= old(out)@ + json_escape_char(c));
    }
}

/// Appends a JSON string literal holding `s`.
pub fn push_json_string(out: &mut Vec<char>, s: &str)
    ensures
        final(out)@ == old(out)@ + json_string(s@),
{
    let chars = crate::text::chars_of(s);
    out.push('"');
    let ghost start = out@;
    let n = chars.len();
    for i in 0..n
        invariant
            n == chars@.len(),
            chars@ == s@,
            out@ == start + json_escape(s@.take(i as int)),
    {
        proof {
            assert(s@.take(i + 1).drop_last() =~= s@.take(i as int));
        }
        push_json_escaped(out, chars[i]);
        proof {
            assert(out@ =~= start + json_escape(s@.take(i + 1)));
        }
    }
    proof {
        assert(s@.take(n as int) =~= s@);
    }
    out.push('"');
    proof {
        assert(out@ =~= old(out)@ + json_string(s@));
    }
}

/// The hexadecimal digit `k` (0 = most significant) of a 128-bit value.
pub open spec fn nibble(id: u128, k: int) -> int {
    ((id >> ((124 - 4 * k) as u32)) & 15u128) as int
}

/// The 32 lower-case hexadecimal digits of a 128-bit value.
pub open spec fn hex128(id: u128) -> Seq<char> {
    Seq::new(32, |k: int| hex_char(nibble(id, k)))
}

/// The hyphenated lower-case text of an identifier (8-4-4-4-12 digits), as
/// `uuid::Uuid` displays and serializes it.
pub open spec fn uuid_text(id: u128) -> Seq<char> {
    let h = hex128(id);
    h.subrange(0, 8) + seq!['-'] + h.subrange(8, 12) + seq!['-'] + h.subrange(12, 16) + seq!['-']
        + h.subrange(16, 20) + seq!['-'] + h.subrange(20, 32)
}

/// Appends the hyphenated text of an identifier.
pub fn push_id_text(out: &mut Vec<char>, id: u128)
    ensures
        final(out)@ == old(out)@ + uuid_text(id),
{
    let ghost start = out@;
    let mut digits: Vec<char> = Vec::new();
    for k in 0..32usize
        invariant
            digits@.len() == k,
            forall|j: int| 0 <= j < k ==> digits@[j] == hex_char(#[trigger] nibble(id, j)),
    {
        let shift: u32 = (124 - 4 * k) as u32;
        let d: u128 = (id >> shift) & 15u128;
        assert(d < 16) by (bit_vector)
            requires
                d == (id >> shift) & 15u128,
        ;
        digits.push(HEX_DIGITS[d as usize]);
    }
    proof {
        assert(digits@ =~= hex128(id));
    }
    for k in 0..32usize
        invariant
            digits@ == hex128(id),
            out@ == start + uuid_text(id).take(k + (if k <= 8 { 0int } else if k <= 12 { 1int } else if k <= 16 { 2int } else if k <= 20 { 3int } else { 4int })),
    {
        if k == 8 || k == 12 || k == 16 || k == 20 {
            out.push('-');
        }
        out.push(digits[k]);
        proof {
            let t = uuid_text(id);
            let h = hex128(id);
            assert(t.len() == 36);
            let off: int = if k < 8 { 0int } else if k < 12 { 1int } else if k < 16 { 2int } else if k < 20 { 3int } else { 4int };
            assert(t[k + off] == h[k as int]);
            if k == 8 || k == 12 || k == 16 || k == 20 {
                assert(t[k + off - 1] == '-');
            }
            assert(out@ =~= start + t.take(k + 1 + off));
        }
    }
    proof {
        assert(uuid_text(id).take(36) =~= uuid_text(id));
    }
}

/// The hyphenated text of an identifier.
pub fn id_text(id: u128) -> (r: String)
    ensures
        r@ == uuid_text(id),
{
    let mut v: Vec<char> = Vec::new();
    push_id_text(&mut v, id);
    proof {
        assert(v@ =~= uuid_text(id));
    }
    crate::text::string_from_chars(v.as_slice())
}

} // verus!
