use vstd::prelude::*;
use vstd::string::StringSliceAdditionalSpecFns;
use crate::codec::{
    decimal, hex_decode, hex_decoded, hex_digit, hex_encode, hex_text, hex_val, is_hex_char, push_all,
    push_decimal,
};

verus! {

/// The byte views of a sequence of byte vectors.
pub open spec fn byte_views(v: Seq<Vec<u8>>) -> Seq<Seq<u8>> {
    v.map_values(|x: Vec<u8>| x@)
}

/// The key under which a header batch for slots `start..=end` is stored.
pub open spec fn headers_key(start: nat, end: nat) -> Seq<u8> {
    "headers_slots_".spec_bytes() + decimal(start) + "_".spec_bytes() + decimal(end)
}

/// The key under which a light-client update is stored.
pub open spec fn update_key(period: nat, attested_slot: nat) -> Seq<u8> {
    "light_client_update_period_".spec_bytes() + decimal(period) + "_attested_slot_".spec_bytes()
        + decimal(attested_slot)
}

/// A payload as a JSON string of its lowercase hex digits.
pub open spec fn quoted_hex(b: Seq<u8>) -> Seq<u8> {
    seq![34u8] + hex_text(b) + seq![34u8]
}

/// The comma-separated JSON strings of a header sequence.
pub open spec fn json_items(hs: Seq<Seq<u8>>) -> Seq<u8>
    decreases hs.len(),
{
    if hs.len() == 0 {
        Seq::empty()
    } else if hs.len() == 1 {
        quoted_hex(hs[0])
    } else {
        json_items(hs.drop_last()) + seq![44u8] + quoted_hex(hs.last())
    }
}

/// The stored form of a header batch: a JSON array of hex strings, in batch order.
pub open spec fn headers_body(hs: Seq<Seq<u8>>) -> Seq<u8> {
    seq![91u8] + json_items(hs) + seq![93u8]
}

/// The storage key of a header batch.
pub fn headers_checkpoint_key(start_slot: u64, end_slot: u64) -> (r: Vec<u8>)
    ensures
        r@ == headers_key(start_slot as nat, end_slot as nat),
{
    let mut out: Vec<u8> = Vec::new();
    push_all(&mut out, "headers_slots_".as_bytes());
    push_decimal(start_slot, &mut out);
    push_all(&mut out, "_".as_bytes());
    push_decimal(end_slot, &mut out);
    assert(out@ =~= headers_key(start_slot as nat, end_slot as nat));
    out
}

/// The storage key of a light-client update.
pub fn update_checkpoint_key(period: u64, attested_slot: u64) -> (r: Vec<u8>)
    ensures
        r@ == update_key(period as nat, attested_slot as nat),
{
    let mut out: Vec<u8> = Vec::new();
    push_all(&mut out, "light_client_update_period_".as_bytes());
    push_decimal(period, &mut out);
    push_all(&mut out, "_attested_slot_".as_bytes());
    push_decimal(attested_slot, &mut out);
    assert(out@ =~= update_key(period as nat, attested_slot as nat));
    out
}

/// Appends a payload as a JSON hex string.
fn push_quoted_hex(out: &mut Vec<u8>, b: &[u8])
    ensures
        final(out)@ == old(out)@ + quoted_hex(b@),
{
    out.push(34u8);
    let digits = hex_encode(b);
    push_all(out, digits.as_slice());
    out.push(34u8);
    assert(final(out)@ =~= old(out)@ + quoted_hex(b@));
}

/// The stored form of a light-client update.
pub fn update_checkpoint_body(update: &Vec<u8>) -> (r: Vec<u8>)
    ensures
        r@ == quoted_hex(update@),
{
    let mut out: Vec<u8> = Vec::new();
    push_quoted_hex(&mut out, update.as_slice());
    assert(out@ =~= quoted_hex(update@));
    out
}

/// The stored form of a header batch.
pub fn headers_checkpoint_body(headers: &Vec<Vec<u8>>) -> (r: Vec<u8>)
    ensures
        r@ == headers_body(byte_views(headers@)),
{
    let ghost hs = byte_views(headers@);
    let mut out: Vec<u8> = Vec::new();
    out.push(91u8);
    let mut i: usize = 0;
    while i < headers.len()
        invariant
            i <= headers@.len(),
            hs == byte_views(headers@),
            out@ == seq![91u8] + json_items(hs.subrange(0, i as int)),
        decreases headers@.len() - i,
    {
        let ghost before = hs.subrange(0, i as int);
        let ghost after = hs.subrange(0, i + 1);
        assert(after.drop_last() =~= before);
        if i > 0 {
            out.push(44u8);
        }
        push_quoted_hex(&mut out, headers[i].as_slice());
        i = i + 1;
        assert(out@ =~= seq![91u8] + json_items(after));
    }
    out.push(93u8);
    assert(hs.subrange(0, i as int) =~= hs);
    assert(out@ =~= headers_body(hs));
    out
}

/// The first index at or after `i` that holds a double quote, or the text's length.
pub open spec fn quote_at(t: Seq<u8>, i: int) -> int
    decreases t.len() - i,
{
    if i < 0 || i >= t.len() {
        t.len() as int
    } else if t[i] == 34 {
        i
    } else {
        quote_at(t, i + 1)
    }
}

/// Reads the JSON hex strings of an array from `pos` on, after the items `acc`.
pub open spec fn items_from(t: Seq<u8>, pos: int, acc: Seq<Seq<u8>>) -> Option<Seq<Seq<u8>>>
    decreases t.len() - pos,
{
    if pos < 0 || pos >= t.len() || t[pos] != 34 {
        None
    } else {
        let q = quote_at(t, pos + 1);
        if q <= pos || q >= t.len() {
            None
        } else {
            match hex_decoded(t.subrange(pos + 1, q)) {
                None => None,
                Some(b) => if q + 1 < t.len() && t[q + 1] == 44 {
                    items_from(t, q + 2, acc.push(b))
                } else if q + 2 == t.len() && t[q + 1] == 93 {
                    Some(acc.push(b))
                } else {
                    None
                },
            }
        }
    }
}

/// The header sequence that a stored header batch holds, if it is one.
pub open spec fn parse_headers(t: Seq<u8>) -> Option<Seq<Seq<u8>>> {
    if t == seq![91u8, 93u8] {
        Some(Seq::empty())
    } else if t.len() > 0 && t[0] == 91 {
        items_from(t, 1, Seq::empty())
    } else {
        None
    }
}

/// Reads back a stored header batch.
pub fn parse_headers_checkpoint(t: &[u8]) -> (r: Option<Vec<Vec<u8>>>)
    ensures
        r matches Some(v) ==> parse_headers(t@) == Some(byte_views(v@)),
        r is None ==> parse_headers(t@) is None,
{
    let len = t.len();
    if len == 2 && t[0] == 91 && t[1] == 93 {
        assert(t@ =~= seq![91u8, 93u8]);
        return Some(Vec::new());
    }
    assert(t@ != seq![91u8, 93u8]);
    if len == 0 || t[0] != 91 {
        return None;
    }
    let mut acc: Vec<Vec<u8>> = Vec::new();
    let mut pos: usize = 1;
    assert(byte_views(acc@) =~= Seq::<Seq<u8>>::empty());
    loop
        invariant
            len == t@.len(),
            1 <= pos,
            parse_headers(t@) == items_from(t@, pos as int, byte_views(acc@)),
        decreases len - pos,
    {
        if pos >= len || t[pos] != 34 {
            return None;
        }
        let mut q: usize = pos + 1;
        while q < len && t[q] != 34
            invariant
                pos + 1 <= q <= len,
                len == t@.len(),
                quote_at(t@, pos + 1) == quote_at(t@, q as int),
            decreases len - q,
        {
            q = q + 1;
        }
        assert(quote_at(t@, q as int) == q);
        if q >= len {
            return None;
        }
        let mut piece: Vec<u8> = Vec::new();
        let mut i: usize = pos + 1;
        while i < q
            invariant
                pos + 1 <= i <= q,
                q < len,
                len == t@.len(),
                piece@ == t@.subrange(pos + 1, i as int),
            decreases q - i,
        {
            piece.push(t[i]);
            i = i + 1;
            assert(piece@ =~= t@.subrange(pos + 1, i as int));
        }
        match hex_decode(piece.as_slice()) {
            None => {
                return None;
            },
            Some(b) => {
                let ghost before = byte_views(acc@);
                acc.push(b);
                assert(byte_views(acc@) =~= before.push(b@));
                if q + 1 < len && t[q + 1] == 44 {
                    pos = q + 2;
                } else if len - q == 2 && t[q + 1] == 93 {
                    return Some(acc);
                } else {
                    return None;
                }
            },
        }
    }
}

/// The items of a batch from index `k` on, as they close a stored batch.
pub open spec fn items_tail(hs: Seq<Seq<u8>>, k: int) -> Seq<u8>
    decreases hs.len() - k,
{
    if k < 0 || k + 1 >= hs.len() {
        quoted_hex(hs[k]) + seq![93u8]
    } else {
        quoted_hex(hs[k]) + seq![44u8] + items_tail(hs, k + 1)
    }
}

proof fn lemma_hex_digit(n: nat)
    requires
        n < 16,
    ensures
        is_hex_char(hex_digit(n)),
        hex_val(hex_digit(n)) == n,
        hex_digit(n) != 34,
{
}

proof fn lemma_hex_round_trip(b: Seq<u8>)
    ensures
        hex_decoded(hex_text(b)) == Some(b),
{
    let t = hex_text(b);
    assert forall|i: int| 0 <= i < t.len() implies #[trigger] is_hex_char(t[i]) by {
        let x = b[i / 2] as nat;
        assert(x / 16 < 16) by (nonlinear_arith)
            requires
                x < 256,
        ;
        lemma_hex_digit(x / 16);
        lemma_hex_digit(x % 16);
    }
    let d = Seq::new(t.len() / 2, |i: int| (hex_val(t[2 * i]) * 16 + hex_val(t[2 * i + 1])) as u8);
    assert forall|i: int| 0 <= i < b.len() implies d[i] == b[i] by {
        let x = b[i] as nat;
        assert(x / 16 < 16 && (x / 16) * 16 + x % 16 == x) by (nonlinear_arith)
            requires
                x < 256,
        ;
        assert((2 * i) / 2 == i);
        assert((2 * i + 1) / 2 == i);
        lemma_hex_digit(x / 16);
        lemma_hex_digit(x % 16);
    }
    assert(d =~= b);
}

proof fn lemma_quote_at(t: Seq<u8>, i: int, j: int)
    requires
        0 <= i <= j < t.len(),
        t[j] == 34,
        forall|m: int| i <= m < j ==> t[m] != 34,
    ensures
        quote_at(t, i) == j,
    decreases j - i,
{
    if i < j {
        lemma_quote_at(t, i + 1, j);
    }
}

/// The stored batch splits after its first `k` items into their text and the tail.
proof fn lemma_body_split(hs: Seq<Seq<u8>>, k: int)
    requires
        0 <= k < hs.len(),
    ensures
        json_items(hs) + seq![93u8] == json_items(hs.subrange(0, k)) + (if k > 0 {
            seq![44u8]
        } else {
            Seq::empty()
        }) + items_tail(hs, k),
    decreases hs.len() - k,
{
    let n = hs.len() as int;
    if k == n - 1 {
        if n > 1 {
            assert(hs.drop_last() =~= hs.subrange(0, k));
        }
        assert(json_items(hs) + seq![93u8] =~= json_items(hs.subrange(0, k)) + (if k > 0 {
            seq![44u8]
        } else {
            Seq::empty()
        }) + items_tail(hs, k));
    } else {
        lemma_body_split(hs, k + 1);
        let pre = hs.subrange(0, k + 1);
        assert(pre.drop_last() =~= hs.subrange(0, k));
        assert(pre.last() == hs[k]);
        if k == 0 {
            assert(json_items(pre) == quoted_hex(hs[0]));
        }
        assert(json_items(hs) + seq![93u8] =~= json_items(hs.subrange(0, k)) + (if k > 0 {
            seq![44u8]
        } else {
            Seq::empty()
        }) + items_tail(hs, k));
    }
}

/// Reading the items from `pos`, where the tail from index `k` stands, yields the rest.
proof fn lemma_items_from(t: Seq<u8>, pos: int, hs: Seq<Seq<u8>>, k: int, acc: Seq<Seq<u8>>)
    requires
        0 <= k < hs.len(),
        0 <= pos <= t.len(),
        t.subrange(pos, t.len() as int) == items_tail(hs, k),
    ensures
        items_from(t, pos, acc) == Some(acc + hs.subrange(k, hs.len() as int)),
    decreases hs.len() - k,
{
    let h = hs[k];
    let hex = hex_text(h);
    let q = pos + 1 + hex.len();
    let tail = t.subrange(pos, t.len() as int);
    let rest = if k + 1 >= hs.len() {
        seq![93u8]
    } else {
        seq![44u8] + items_tail(hs, k + 1)
    };
    assert(tail =~= seq![34u8] + hex + seq![34u8] + rest);
    assert(q + 1 < t.len());
    assert(t[pos] == tail[0]);
    assert forall|j: int| 0 <= j < hex.len() implies t[pos + 1 + j] == hex[j] by {
        assert(t[pos + 1 + j] == tail[1 + j]);
    }
    assert forall|m: int| pos + 1 <= m < q implies t[m] != 34 by {
        assert(t[m] == hex[m - pos - 1]);
        let x = h[(m - pos - 1) / 2] as nat;
        assert(x / 16 < 16) by (nonlinear_arith)
            requires
                x < 256,
        ;
        lemma_hex_digit(x / 16);
        lemma_hex_digit(x % 16);
    }
    assert(t[q] == tail[q - pos]);
    lemma_quote_at(t, pos + 1, q);
    assert(t.subrange(pos + 1, q) =~= hex);
    lemma_hex_round_trip(h);
    assert(t[q + 1] == tail[q + 1 - pos]);
    if k + 1 >= hs.len() {
        assert(q + 2 == t.len());
        assert(t[q + 1] == 93);
        assert(acc.push(h) =~= acc + hs.subrange(k, hs.len() as int));
    } else {
        let next = items_tail(hs, k + 1);
        assert(t.len() == q + 2 + next.len());
        assert forall|j: int| 0 <= j < next.len() implies t[q + 2 + j] == next[j] by {
            assert(t[q + 2 + j] == tail[q + 2 + j - pos]);
        }
        assert(t.subrange(q + 2, t.len() as int) =~= next);
        lemma_items_from(t, q + 2, hs, k + 1, acc.push(h));
        assert(acc.push(h) + hs.subrange(k + 1, hs.len() as int) =~= acc + hs.subrange(k, hs.len() as int));
    }
}

/// Reading back a stored header batch yields the batch's headers, value for value and in order.
pub proof fn lemma_headers_checkpoint_round_trip(hs: Seq<Seq<u8>>)
    ensures
        parse_headers(headers_body(hs)) == Some(hs),
{
    let t = headers_body(hs);
    if hs.len() == 0 {
        assert(t =~= seq![91u8, 93u8]);
    } else {
        lemma_body_split(hs, 0);
        assert(hs.subrange(0, 0) =~= Seq::<Seq<u8>>::empty());
        assert(t =~= seq![91u8] + items_tail(hs, 0));
        assert(t.subrange(1, t.len() as int) =~= items_tail(hs, 0));
        assert(t != seq![91u8, 93u8]) by {
            assert(items_tail(hs, 0)[0] == 34);
            assert(t[1] == 34);
        }
        lemma_items_from(t, 1, hs, 0, Seq::empty());
        assert(Seq::<Seq<u8>>::empty() + hs.subrange(0, hs.len() as int) =~= hs);
    }
}

} // verus!
