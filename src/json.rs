//! Request bodies: JSON objects whose members are all strings, written as
//! UTF-8 bytes. Escaping works byte by byte: every byte of a multi-byte UTF-8
//! sequence is at least 0x80 and passes through unchanged.

use vstd::prelude::*;
use vstd::string::StringSliceAdditionalSpecFns;

verus! {

pub const QUOTE: u8 = 0x22;
pub const BACKSLASH: u8 = 0x5c;
pub const OPEN_BRACE: u8 = 0x7b;
pub const CLOSE_BRACE: u8 = 0x7d;
pub const COLON: u8 = 0x3a;
pub const COMMA: u8 = 0x2c;

/// The lower-case hexadecimal digit for a value below 16.
pub open spec fn hex_digit(n: u8) -> u8
    recommends
        n < 16,
{
    if n < 10 {
        (0x30 + n) as u8
    } else {
        (0x61 + n - 10) as u8
    }
}

/// What one byte of a string becomes inside a JSON string literal.
pub open spec fn escape_byte(b: u8) -> Seq<u8> {
    if b == QUOTE || b == BACKSLASH {
        seq![BACKSLASH, b]
    } else if b == 0x08 {
        seq![BACKSLASH, 0x62u8]
    } else if b == 0x09 {
        seq![BACKSLASH, 0x74u8]
    } else if b == 0x0a {
        seq![BACKSLASH, 0x6eu8]
    } else if b == 0x0c {
        seq![BACKSLASH, 0x66u8]
    } else if b == 0x0d {
        seq![BACKSLASH, 0x72u8]
    } else if b < 0x20 {
        seq![BACKSLASH, 0x75u8, 0x30u8, 0x30u8, hex_digit(b / 16), hex_digit(b % 16)]
    } else {
        seq![b]
    }
}

/// The escaped form of a byte string, byte after byte.
pub open spec fn escaped(s: Seq<u8>) -> Seq<u8>
    decreases s.len(),
{
    if s.len() == 0 {
        Seq::empty()
    } else {
        escaped(s.drop_last()) + escape_byte(s.last())
    }
}

/// A JSON string literal holding `s`.
pub open spec fn quoted(s: Seq<u8>) -> Seq<u8> {
    seq![QUOTE] + escaped(s) + seq![QUOTE]
}

/// `"k": "v"` without spaces.
pub open spec fn member(k: Seq<u8>, v: Seq<u8>) -> Seq<u8> {
    quoted(k) + seq![COLON] + quoted(v)
}

/// A JSON object with the single member `k`.
pub open spec fn object1(k: Seq<u8>, v: Seq<u8>) -> Seq<u8> {
    seq![OPEN_BRACE] + member(k, v) + seq![CLOSE_BRACE]
}

/// A JSON object with the members `k1` and `k2`, in that order.
pub open spec fn object2(k1: Seq<u8>, v1: Seq<u8>, k2: Seq<u8>, v2: Seq<u8>) -> Seq<u8> {
    seq![OPEN_BRACE] + member(k1, v1) + seq![COMMA] + member(k2, v2) + seq![CLOSE_BRACE]
}

fn hex_digit_exec(n: u8) -> (r: u8)
    requires
        n < 16,
    ensures
        r == hex_digit(n),
{
    if n < 10 {
        0x30 + n
    } else {
        0x61 + n - 10
    }
}

fn push_escaped_byte(out: &mut Vec<u8>, b: u8)
    ensures
        final(out)@ == old(out)@ + escape_byte(b),
{
    let ghost start = out@;
    if b == QUOTE || b == BACKSLASH {
        out.push(BACKSLASH);
        out.push(b);
    } else if b == 0x08 {
        out.push(BACKSLASH);
        out.push(0x62);
    } else if b == 0x09 {
        out.push(BACKSLASH);
        out.push(0x74);
    } else if b == 0x0a {
        out.push(BACKSLASH);
        out.push(0x6e);
    } else if b == 0x0c {
        out.push(BACKSLASH);
        out.push(0x66);
    } else if b == 0x0d {
        out.push(BACKSLASH);
        out.push(0x72);
    } else if b < 0x20 {
        out.push(BACKSLASH);
        out.push(0x75);
        out.push(0x30);
        out.push(0x30);
        out.push(hex_digit_exec(b / 16));
        out.push(hex_digit_exec(b % 16));
    } else {
        out.push(b);
    }
    assert(out@ =~= start + escape_byte(b));
}

fn push_quoted(out: &mut Vec<u8>, s: &str)
    ensures
        final(out)@ == old(out)@ + quoted(s.spec_bytes()),
{
    let bytes = s.as_bytes();
    let ghost start = out@;
    out.push(QUOTE);
    let mut i: usize = 0;
    while i < bytes.len()
        invariant
            0 <= i <= bytes@.len(),
            bytes@ == s.spec_bytes(),
            out@ == start + seq![QUOTE] + escaped(bytes@.subrange(0, i as int)),
        decreases bytes@.len() - i,
    {
        push_escaped_byte(out, bytes[i]);
        assert(bytes@.subrange(0, i + 1).drop_last() =~= bytes@.subrange(0, i as int));
        i = i + 1;
    }
    assert(bytes@.subrange(0, i as int) =~= bytes@);
    out.push(QUOTE);
    assert(out@ =~= start + quoted(s.spec_bytes()));
}

fn push_member(out: &mut Vec<u8>, k: &str, v: &str)
    ensures
        final(out)@ == old(out)@ + member(k.spec_bytes(), v.spec_bytes()),
{
    let ghost start = out@;
    push_quoted(out, k);
    out.push(COLON);
    push_quoted(out, v);
    assert(out@ =~= start + member(k.spec_bytes(), v.spec_bytes()));
}

/// The bytes of the JSON object `{"k":"v"}`.
pub fn json_object1(k: &str, v: &str) -> (r: Vec<u8>)
    ensures
        r@ == object1(k.spec_bytes(), v.spec_bytes()),
{
    let mut out: Vec<u8> = Vec::new();
    out.push(OPEN_BRACE);
    push_member(&mut out, k, v);
    out.push(CLOSE_BRACE);
    assert(out@ =~= object1(k.spec_bytes(), v.spec_bytes()));
    out
}

/// The bytes of the JSON object `{"k1":"v1","k2":"v2"}`.
pub fn json_object2(k1: &str, v1: &str, k2: &str, v2: &str) -> (r: Vec<u8>)
    ensures
        r@ == object2(k1.spec_bytes(), v1.spec_bytes(), k2.spec_bytes(), v2.spec_bytes()),
{
    let mut out: Vec<u8> = Vec::new();
    out.push(OPEN_BRACE);
    push_member(&mut out, k1, v1);
    out.push(COMMA);
    push_member(&mut out, k2, v2);
    out.push(CLOSE_BRACE);
    assert(out@ =~= object2(k1.spec_bytes(), v1.spec_bytes(), k2.spec_bytes(), v2.spec_bytes()));
    out
}

} // verus!
