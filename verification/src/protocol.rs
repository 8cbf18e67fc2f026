//! Framing of the outbound layer-change command: a single JSON object,
//! `{"ChangeLayer":{"new":"<layer>"}}`, written as raw bytes with no length
//! framing or delimiter. The layer name is JSON-string-escaped byte by
//! byte: quote and backslash are escaped, control bytes become `\u00XX`,
//! and all other bytes (including multi-byte UTF-8) pass through unchanged.

use vstd::prelude::*;
use vstd::string::*;
use vstd::utf8::encode_utf8;

verus! {

/// One hexadecimal digit, lower case, as an ASCII byte; `n` is below 16.
pub open spec fn hex_digit(n: u8) -> u8 {
    if n < 10 {
        (48 + n) as u8
    } else {
        (87 + n) as u8
    }
}

/// The JSON string encoding of one byte of layer-name text.
pub open spec fn escaped_byte(b: u8) -> Seq<u8> {
    if b == 34 {
        seq![92u8, 34u8]
    } else if b == 92 {
        seq![92u8, 92u8]
    } else if b < 32 {
        seq![92u8, 117u8, 48u8, 48u8, hex_digit(b / 16), hex_digit(b % 16)]
    } else {
        seq![b]
    }
}

/// The JSON string encoding of a whole layer name, byte by byte.
pub open spec fn escape_bytes(s: Seq<u8>) -> Seq<u8>
    decreases s.len(),
{
    if s.len() == 0 {
        Seq::empty()
    } else {
        escaped_byte(s[0]) + escape_bytes(s.drop_first())
    }
}

/// The bytes of `{"ChangeLayer":{"new":"`.
pub open spec fn request_prefix() -> Seq<u8> {
    seq![
        123u8, 34u8, 67u8, 104u8, 97u8, 110u8, 103u8, 101u8, 76u8, 97u8, 121u8, 101u8, 114u8,
        34u8, 58u8, 123u8, 34u8, 110u8, 101u8, 119u8, 34u8, 58u8, 34u8,
    ]
}

/// The bytes of `"}}`.
pub open spec fn request_suffix() -> Seq<u8> {
    seq![34u8, 125u8, 125u8]
}

/// The bytes of one outbound layer-change command for a layer name given as
/// UTF-8 bytes.
pub open spec fn change_layer_request(layer: Seq<u8>) -> Seq<u8> {
    request_prefix() + escape_bytes(layer) + request_suffix()
}

/// The bytes of one outbound layer-change command for a layer name given as
/// text.
pub open spec fn change_layer_request_text(layer: Seq<char>) -> Seq<u8> {
    change_layer_request(encode_utf8(layer))
}

fn hex_digit_exec(n: u8) -> (r: u8)
    requires
        n < 16,
    ensures
        r == hex_digit(n),
{
    if n < 10 {
        48 + n
    } else {
        87 + n
    }
}

proof fn lemma_escape_bytes_concat(a: Seq<u8>, b: Seq<u8>)
    ensures
        escape_bytes(a + b) == escape_bytes(a) + escape_bytes(b),
    decreases a.len(),
{
    if a.len() == 0 {
        assert(a + b =~= b);
        assert(escape_bytes(a) + escape_bytes(b) =~= escape_bytes(b));
    } else {
        assert((a + b).drop_first() =~= a.drop_first() + b);
        assert((a + b)[0] == a[0]);
        lemma_escape_bytes_concat(a.drop_first(), b);
        assert(escaped_byte(a[0]) + (escape_bytes(a.drop_first()) + escape_bytes(b)) =~= (
        escaped_byte(a[0]) + escape_bytes(a.drop_first())) + escape_bytes(b));
    }
}

proof fn lemma_escape_bytes_step(s: Seq<u8>, i: int)
    requires
        0 <= i < s.len(),
    ensures
        escape_bytes(s.take(i + 1)) == escape_bytes(s.take(i)) + escaped_byte(s[i]),
{
    let single = seq![s[i]];
    assert(s.take(i + 1) =~= s.take(i) + single);
    lemma_escape_bytes_concat(s.take(i), single);
    assert(single.drop_first() =~= Seq::<u8>::empty());
    assert(escape_bytes(Seq::<u8>::empty()) == Seq::<u8>::empty());
    assert(escape_bytes(single) == escaped_byte(s[i]) + escape_bytes(single.drop_first()));
    assert(escape_bytes(single) =~= escaped_byte(s[i]));
}

/// Renders the layer-change command for one layer name.
pub fn render_change_layer(layer: &str) -> (r: Vec<u8>)
    ensures
        r@ == change_layer_request_text(layer@),
{
    let bytes = layer.as_bytes_vec();
    let mut out: Vec<u8> = Vec::new();
    out.push(123);
    out.push(34);
    out.push(67);
    out.push(104);
    out.push(97);
    out.push(110);
    out.push(103);
    out.push(101);
    out.push(76);
    out.push(97);
    out.push(121);
    out.push(101);
    out.push(114);
    out.push(34);
    out.push(58);
    out.push(123);
    out.push(34);
    out.push(110);
    out.push(101);
    out.push(119);
    out.push(34);
    out.push(58);
    out.push(34);
    proof {
        assert(out@ =~= request_prefix());
        assert(bytes@.take(0) =~= Seq::<u8>::empty());
    }
    let mut i: usize = 0;
    while i < bytes.len()
        invariant
            i <= bytes@.len(),
            out@ == request_prefix() + escape_bytes(bytes@.take(i as int)),
        decreases bytes@.len() - i,
    {
        let b = bytes[i];
        if b == 34 {
            out.push(92);
            out.push(34);
        } else if b == 92 {
            out.push(92);
            out.push(92);
        } else if b < 32 {
            out.push(92);
            out.push(117);
            out.push(48);
            out.push(48);
            out.push(hex_digit_exec(b / 16));
            out.push(hex_digit_exec(b % 16));
        } else {
            out.push(b);
        }
        proof {
            lemma_escape_bytes_step(bytes@, i as int);
            assert(out@ =~= request_prefix() + escape_bytes(bytes@.take(i as int + 1)));
        }
        i += 1;
    }
    proof {
        assert(bytes@.take(bytes@.len() as int) =~= bytes@);
    }
    out.push(34);
    out.push(125);
    out.push(125);
    proof {
        assert(out@ =~= change_layer_request(bytes@));
    }
    out
}

} // verus!
