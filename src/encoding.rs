use vstd::prelude::*;
use vstd::slice::slice_subrange;
use vstd::string::*;

use crate::report::bar_free;

verus! {

/// Largest number of thumbnail bytes that are read and encoded.
pub const MAX_THUMB_BYTES: u32 = 1048576;

/// The character of the standard base64 alphabet for a six-bit value.
pub open spec fn b64_digit(v: int) -> char {
    if v < 26 {
        (65 + v) as char
    } else if v < 52 {
        (97 + (v - 26)) as char
    } else if v < 62 {
        (48 + (v - 52)) as char
    } else if v == 62 {
        '+'
    } else {
        '/'
    }
}

/// Whether `c` belongs to the standard base64 alphabet (padding excluded).
pub open spec fn is_b64_digit(c: char) -> bool {
    ('A' <= c && c <= 'Z') || ('a' <= c && c <= 'z') || ('0' <= c && c <= '9') || c == '+' || c
        == '/'
}

/// The six-bit value of an alphabet character; padding and foreign characters count as zero.
pub open spec fn b64_value(c: char) -> int {
    if 'A' <= c && c <= 'Z' {
        c as int - 65
    } else if 'a' <= c && c <= 'z' {
        c as int - 97 + 26
    } else if '0' <= c && c <= '9' {
        c as int - 48 + 52
    } else if c == '+' {
        62
    } else if c == '/' {
        63
    } else {
        0
    }
}

/// Standard base64 (RFC 4648) with `=` padding and no line breaks, one group of
/// three bytes at a time.
pub open spec fn b64_encode(b: Seq<u8>) -> Seq<char>
    decreases b.len(),
{
    if b.len() == 0 {
        seq![]
    } else if b.len() == 1 {
        let v = b[0] as int * 16;
        seq![b64_digit(v / 64), b64_digit(v % 64), '=', '=']
    } else if b.len() == 2 {
        let v = (b[0] as int * 256 + b[1] as int) * 4;
        seq![b64_digit(v / 4096), b64_digit((v / 64) % 64), b64_digit(v % 64), '=']
    } else {
        let v = b[0] as int * 65536 + b[1] as int * 256 + b[2] as int;
        seq![
            b64_digit(v / 262144),
            b64_digit((v / 4096) % 64),
            b64_digit((v / 64) % 64),
            b64_digit(v % 64),
        ] + b64_encode(b.skip(3))
    }
}

/// Whether a four-character group is well-formed base64; only the last group
/// may carry padding, and padded groups leave their unused bits zero.
pub open spec fn b64_group_ok(g: Seq<char>, last: bool) -> bool {
    &&& g.len() == 4
    &&& is_b64_digit(g[0])
    &&& is_b64_digit(g[1])
    &&& {
        ||| (is_b64_digit(g[2]) && is_b64_digit(g[3]))
        ||| (last && is_b64_digit(g[2]) && g[3] == '=' && b64_value(g[2]) % 4 == 0)
        ||| (last && g[2] == '=' && g[3] == '=' && b64_value(g[1]) % 16 == 0)
    }
}

/// Whether `p` is canonical padded base64 text.
pub open spec fn is_b64(p: Seq<char>) -> bool
    decreases p.len(),
{
    if p.len() == 0 {
        true
    } else {
        p.len() >= 4 && b64_group_ok(p.take(4), p.len() == 4) && is_b64(p.skip(4))
    }
}

/// The bytes that one group of four characters stands for.
pub open spec fn b64_decode_group(g: Seq<char>) -> Seq<u8> {
    let w = b64_value(g[0]) * 262144 + b64_value(g[1]) * 4096 + b64_value(g[2]) * 64
        + b64_value(g[3]);
    if g[2] == '=' {
        seq![(w / 65536) as u8]
    } else if g[3] == '=' {
        seq![(w / 65536) as u8, ((w / 256) % 256) as u8]
    } else {
        seq![(w / 65536) as u8, ((w / 256) % 256) as u8, (w % 256) as u8]
    }
}

/// Decoding of base64 text, group by group.
pub open spec fn b64_decode(p: Seq<char>) -> Seq<u8>
    decreases p.len(),
{
    if p.len() < 4 {
        seq![]
    } else {
        b64_decode_group(p.take(4)) + b64_decode(p.skip(4))
    }
}

proof fn lemma_digit(v: int)
    requires
        0 <= v < 64,
    ensures
        is_b64_digit(b64_digit(v)),
        b64_value(b64_digit(v)) == v,
{
}

proof fn lemma_split_full(v: int)
    requires
        0 <= v < 16777216,
    ensures
        0 <= v / 262144 < 64,
        v == (v / 262144) * 262144 + ((v / 4096) % 64) * 4096 + ((v / 64) % 64) * 64 + v % 64,
{
    assert(v == (v / 262144) * 262144 + ((v / 4096) % 64) * 4096 + ((v / 64) % 64) * 64 + v % 64)
        by (nonlinear_arith)
        requires
            0 <= v < 16777216,
    ;
}

proof fn lemma_bytes_full(b0: int, b1: int, b2: int)
    requires
        0 <= b0 < 256,
        0 <= b1 < 256,
        0 <= b2 < 256,
    ensures
        ({
            let v = b0 * 65536 + b1 * 256 + b2;
            &&& 0 <= v < 16777216
            &&& v / 65536 == b0
            &&& (v / 256) % 256 == b1
            &&& v % 256 == b2
        }),
{
}

proof fn lemma_group_one(b: Seq<u8>)
    requires
        b.len() == 1,
    ensures
        b64_encode(b).len() == 4,
        b64_group_ok(b64_encode(b), true),
        b64_decode_group(b64_encode(b)) == b,
{
    let v = b[0] as int * 16;
    assert(0 <= v / 64 < 64);
    assert(v % 64 % 16 == 0);
    lemma_digit(v / 64);
    lemma_digit(v % 64);
    let w = (v / 64) * 262144 + (v % 64) * 4096;
    assert(w == b[0] as int * 65536);
    assert(b64_decode_group(b64_encode(b)) =~= b);
}

proof fn lemma_group_two(b: Seq<u8>)
    requires
        b.len() == 2,
    ensures
        b64_encode(b).len() == 4,
        b64_group_ok(b64_encode(b), true),
        b64_decode_group(b64_encode(b)) == b,
{
    let v = (b[0] as int * 256 + b[1] as int) * 4;
    assert(0 <= v / 4096 < 64);
    assert(v % 64 % 4 == 0);
    lemma_digit(v / 4096);
    lemma_digit((v / 64) % 64);
    lemma_digit(v % 64);
    let w = (v / 4096) * 262144 + ((v / 64) % 64) * 4096 + (v % 64) * 64;
    assert(w == b[0] as int * 65536 + b[1] as int * 256);
    lemma_bytes_full(b[0] as int, b[1] as int, 0);
    assert(b64_decode_group(b64_encode(b)) =~= b);
}

proof fn lemma_group_full(b: Seq<u8>)
    requires
        b.len() >= 3,
    ensures
        b64_encode(b).len() >= 4,
        b64_encode(b).skip(4) == b64_encode(b.skip(3)),
        b64_group_ok(b64_encode(b).take(4), b.len() == 3),
        b64_decode_group(b64_encode(b).take(4)) == b.take(3),
{
    let v = b[0] as int * 65536 + b[1] as int * 256 + b[2] as int;
    lemma_bytes_full(b[0] as int, b[1] as int, b[2] as int);
    lemma_split_full(v);
    lemma_digit(v / 262144);
    lemma_digit((v / 4096) % 64);
    lemma_digit((v / 64) % 64);
    lemma_digit(v % 64);
    let g = seq![
        b64_digit(v / 262144),
        b64_digit((v / 4096) % 64),
        b64_digit((v / 64) % 64),
        b64_digit(v % 64),
    ];
    let e = b64_encode(b);
    assert(e == g + b64_encode(b.skip(3)));
    assert(e.take(4) =~= g);
    assert(e.skip(4) =~= b64_encode(b.skip(3)));
    assert(b64_decode_group(g) =~= b.take(3));
}

/// Base64 text made by `b64_encode` is canonical, and decoding it gives back
/// the bytes it was made from.
pub proof fn lemma_b64_round_trip(b: Seq<u8>)
    ensures
        is_b64(b64_encode(b)),
        b64_decode(b64_encode(b)) == b,
        b64_encode(b).len() % 4 == 0,
    decreases b.len(),
{
    let e = b64_encode(b);
    if b.len() == 0 {
        assert(e =~= seq![]);
    } else if b.len() < 3 {
        if b.len() == 1 {
            lemma_group_one(b);
        } else {
            lemma_group_two(b);
        }
        assert(e.take(4) =~= e);
        assert(e.skip(4).len() == 0);
        assert(is_b64(e.skip(4)));
        assert(b64_decode(e.skip(4)) =~= seq![]);
        assert(b64_decode(e) == b64_decode_group(e.take(4)) + b64_decode(e.skip(4)));
        assert(b64_decode(e) =~= b);
    } else {
        let r = b.skip(3);
        lemma_group_full(b);
        lemma_b64_round_trip(r);
        assert(e.len() == 4 + b64_encode(r).len());
        assert(b.len() == 3 <==> e.len() == 4) by {
            if r.len() > 0 {
                lemma_nonempty(r);
            } else {
                assert(b64_encode(r) =~= seq![]);
            }
        }
        assert(b64_decode(e) == b64_decode_group(e.take(4)) + b64_decode(e.skip(4)));
        assert(b.take(3) + r =~= b);
    }
}

proof fn lemma_nonempty(b: Seq<u8>)
    requires
        b.len() > 0,
    ensures
        b64_encode(b).len() >= 4,
{
    if b.len() >= 3 {
        lemma_group_full(b);
    } else if b.len() == 1 {
        lemma_group_one(b);
    } else {
        lemma_group_two(b);
    }
}


/// The first `MAX_THUMB_BYTES` bytes of a thumbnail stream; the rest is dropped.
pub open spec fn capped(b: Seq<u8>) -> Seq<u8> {
    if b.len() > MAX_THUMB_BYTES {
        b.take(MAX_THUMB_BYTES as int)
    } else {
        b
    }
}

/// The `data:` URL prefix under which a thumbnail is labelled as PNG.
pub open spec fn thumb_prefix() -> Seq<char> {
    "data:image/png;base64,"@
}

/// The inline image URL for the bytes read from a thumbnail stream.
pub open spec fn thumb_url(b: Seq<u8>) -> Seq<char> {
    thumb_prefix() + b64_encode(capped(b))
}

/// Relies on `base64::Engine::encode` with the `STANDARD` engine: RFC 4648
/// alphabet, `=` padding, no line breaks. It panics only when the encoded
/// length overflows `usize`, which the bound on the input rules out.
#[verifier::external_body]
fn encode_standard(b: &[u8]) -> (r: String)
    requires
        b@.len() <= MAX_THUMB_BYTES,
    ensures
        r@ == b64_encode(b@),
{
    base64::Engine::encode(&base64::engine::general_purpose::STANDARD, b)
}

/// Encodes the bytes read from a thumbnail stream as an inline PNG `data:` URL,
/// keeping at most `MAX_THUMB_BYTES` of them.
pub fn thumbnail_url(bytes: &[u8]) -> (r: String)
    ensures
        r@ == thumb_url(bytes@),
{
    let n: usize = if bytes.len() > MAX_THUMB_BYTES as usize {
        MAX_THUMB_BYTES as usize
    } else {
        bytes.len()
    };
    let kept = slice_subrange(bytes, 0, n);
    proof {
        assert(kept@ =~= capped(bytes@));
    }
    let payload = encode_standard(kept);
    let mut url = String::from_str("data:image/png;base64,");
    url.append(payload.as_str());
    url
}


/// Every character of canonical base64 text is an alphabet character or `=`.
pub proof fn lemma_b64_chars(p: Seq<char>)
    requires
        is_b64(p),
    ensures
        forall|i: int| 0 <= i < p.len() ==> is_b64_digit(#[trigger] p[i]) || p[i] == '=',
    decreases p.len(),
{
    if p.len() > 0 {
        let g = p.take(4);
        let r = p.skip(4);
        lemma_b64_chars(r);
        assert forall|i: int| 0 <= i < p.len() implies is_b64_digit(#[trigger] p[i]) || p[i]
            == '=' by {
            if i < 4 {
                assert(p[i] == g[i]);
            } else {
                assert(p[i] == r[i - 4]);
            }
        }
    }
}

/// A thumbnail URL starts with the PNG `data:` prefix; what follows is
/// canonical base64 that decodes to the bytes kept from the stream, at most
/// `MAX_THUMB_BYTES` of them; and the URL holds no `|`.
pub proof fn lemma_thumb_url_shape(b: Seq<u8>)
    ensures
        thumb_url(b).len() >= thumb_prefix().len(),
        thumb_url(b).take(thumb_prefix().len() as int) == thumb_prefix(),
        is_b64(thumb_url(b).skip(thumb_prefix().len() as int)),
        b64_decode(thumb_url(b).skip(thumb_prefix().len() as int)) == capped(b),
        capped(b).len() <= MAX_THUMB_BYTES,
        bar_free(thumb_url(b)),
{
    reveal_strlit("data:image/png;base64,");
    let pre = thumb_prefix();
    let payload = b64_encode(capped(b));
    let u = thumb_url(b);
    lemma_b64_round_trip(capped(b));
    lemma_b64_chars(payload);
    assert(u.take(pre.len() as int) =~= pre);
    assert(u.skip(pre.len() as int) =~= payload);
    assert forall|i: int| 0 <= i < u.len() implies u[i] != '|' by {
        if i >= pre.len() {
            assert(u[i] == payload[i - pre.len()]);
        }
    }
}

} // verus!
