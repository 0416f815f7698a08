use vstd::prelude::*;
use vstd::string::StringSliceAdditionalSpecFns;

verus! {

/// The little-endian bytes of `n` in `width` bytes.
pub open spec fn le_bytes(n: nat, width: nat) -> Seq<u8>
    decreases width,
{
    if width == 0 {
        Seq::empty()
    } else {
        seq![(n % 256) as u8] + le_bytes(n / 256, (width - 1) as nat)
    }
}

/// The binary encoding of a byte string: its length as four little-endian bytes, then the bytes.
pub open spec fn sized_bytes(b: Seq<u8>) -> Seq<u8> {
    le_bytes(b.len(), 4) + b
}

/// The lowercase hex digit of `n < 16`, as an ASCII byte.
pub open spec fn hex_digit(n: nat) -> u8 {
    if n < 10 { (48 + n) as u8 } else { (87 + n) as u8 }
}

/// Two lowercase hex digits for each byte of `b`, high nibble first.
pub open spec fn hex_text(b: Seq<u8>) -> Seq<u8> {
    Seq::new(
        2 * b.len(),
        |i: int| if i % 2 == 0 { hex_digit(b[i / 2] as nat / 16) } else { hex_digit(b[i / 2] as nat % 16) },
    )
}

/// `0-9`, `a-f` or `A-F`.
pub open spec fn is_hex_char(c: u8) -> bool {
    (48 <= c <= 57) || (97 <= c <= 102) || (65 <= c <= 70)
}

/// The value of a hex digit.
pub open spec fn hex_val(c: u8) -> nat {
    if 48 <= c <= 57 {
        (c - 48) as nat
    } else if 97 <= c <= 102 {
        (c - 87) as nat
    } else {
        (c - 55) as nat
    }
}

/// The bytes that a hex text stands for: none where its length is odd or a character is no digit.
pub open spec fn hex_decoded(t: Seq<u8>) -> Option<Seq<u8>> {
    if t.len() % 2 == 0 && forall|i: int| 0 <= i < t.len() ==> #[trigger] is_hex_char(t[i]) {
        Some(Seq::new(t.len() / 2, |i: int| (hex_val(t[2 * i]) * 16 + hex_val(t[2 * i + 1])) as u8))
    } else {
        None
    }
}

/// The JSON string literal that serde_json writes for a text, quotes and escapes included.
pub uninterp spec fn json_string_of(s: Seq<char>) -> Seq<u8>;

/// Relies on hex::encode: two lowercase digits for each byte, high nibble first.
#[verifier::external_body]
pub(crate) fn hex_encode(b: &[u8]) -> (r: Vec<u8>)
    ensures
        r@ == hex_text(b@),
{
    hex::encode(b).into_bytes()
}

/// Relies on hex::decode: an odd length or a character outside `0-9a-fA-F` is an
/// error, else each pair of digits gives one byte.
#[verifier::external_body]
pub(crate) fn hex_decode(t: &[u8]) -> (r: Option<Vec<u8>>)
    ensures
        r matches Some(v) ==> hex_decoded(t@) == Some(v@),
        r is None ==> hex_decoded(t@) is None,
{
    hex::decode(t).ok()
}

/// Relies on borsh::to_vec for `u64`: eight little-endian bytes.
#[verifier::external_body]
pub(crate) fn borsh_u64(n: u64) -> (r: Vec<u8>)
    ensures
        r@ == le_bytes(n as nat, 8),
{
    borsh::to_vec(&n).unwrap_or_default()
}

/// Relies on borsh::to_vec for `u32`: four little-endian bytes.
#[verifier::external_body]
pub(crate) fn borsh_u32(n: u32) -> (r: Vec<u8>)
    ensures
        r@ == le_bytes(n as nat, 4),
{
    borsh::to_vec(&n).unwrap_or_default()
}

/// Relies on borsh::to_vec for `bool`: one byte, 1 for true and 0 for false.
#[verifier::external_body]
pub(crate) fn borsh_bool(b: bool) -> (r: Vec<u8>)
    ensures
        r@ == seq![if b { 1u8 } else { 0u8 }],
{
    borsh::to_vec(&b).unwrap_or_default()
}

/// Relies on borsh::to_vec for `str`: the UTF-8 length as a `u32`, then the UTF-8 bytes.
#[verifier::external_body]
pub(crate) fn borsh_str(s: &str) -> (r: Vec<u8>)
    requires
        s.spec_bytes().len() <= u32::MAX,
    ensures
        r@ == sized_bytes(s.spec_bytes()),
{
    borsh::to_vec(s).unwrap_or_default()
}

/// Relies on borsh::to_vec for `[u8; 32]`: the 32 bytes as they are.
#[verifier::external_body]
pub(crate) fn borsh_hash(h: &[u8; 32]) -> (r: Vec<u8>)
    ensures
        r@ == h@,
{
    borsh::to_vec(h).unwrap_or_default()
}

/// Relies on borsh::from_slice for `bool`: exactly one byte, 0 or 1.
#[verifier::external_body]
pub(crate) fn borsh_read_bool(b: &[u8]) -> (r: Option<bool>)
    ensures
        r == (if b@ == seq![0u8] {
            Some(false)
        } else if b@ == seq![1u8] {
            Some(true)
        } else {
            None::<bool>
        }),
{
    borsh::from_slice::<bool>(b).ok()
}

/// Relies on borsh::from_slice for `[u8; 32]`: exactly 32 bytes, taken as they are.
#[verifier::external_body]
pub(crate) fn borsh_read_hash(b: &[u8]) -> (r: Option<[u8; 32]>)
    ensures
        r is Some <==> b@.len() == 32,
        r matches Some(h) ==> h@ == b@,
{
    borsh::from_slice::<[u8; 32]>(b).ok()
}

/// Relies on serde_json::to_string for `str`: the text as a JSON string literal.
#[verifier::external_body]
pub(crate) fn json_string(s: &str) -> (r: Vec<u8>)
    ensures
        r@ == json_string_of(s@),
{
    serde_json::to_string(s).unwrap_or_default().into_bytes()
}

/// The decimal digits of `n`, as ASCII bytes, without leading zeros.
pub open spec fn decimal(n: nat) -> Seq<u8>
    decreases n,
{
    if n < 10 {
        seq![(48 + n) as u8]
    } else {
        decimal(n / 10) + seq![(48 + n % 10) as u8]
    }
}

/// Appends the decimal digits of `n` to `out`.
pub fn push_decimal(n: u64, out: &mut Vec<u8>)
    ensures
        final(out)@ == old(out)@ + decimal(n as nat),
    decreases n,
{
    if n < 10 {
        out.push(48u8 + n as u8);
    } else {
        push_decimal(n / 10, out);
        out.push(48u8 + (n % 10) as u8);
        assert(final(out)@ =~= old(out)@ + decimal(n as nat));
    }
}

/// Appends every byte of `b` to `out`.
pub fn push_all(out: &mut Vec<u8>, b: &[u8])
    ensures
        final(out)@ == old(out)@ + b@,
{
    let mut i: usize = 0;
    while i < b.len()
        invariant
            i <= b@.len(),
            out@ == old(out)@ + b@.subrange(0, i as int),
        decreases b@.len() - i,
    {
        out.push(b[i]);
        i = i + 1;
        assert(out@ =~= old(out)@ + b@.subrange(0, i as int));
    }
    assert(b@.subrange(0, b@.len() as int) =~= b@);
}

} // verus!
