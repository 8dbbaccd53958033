//! The `application/x-www-form-urlencoded` encoding of name/value pairs.
use vstd::prelude::*;
use vstd::utf8::encode_utf8;

use crate::external::form_serialize;

verus! {

/// Bytes that the form serializer copies as they are: ASCII letters and
/// digits, `*`, `-`, `.` and `_`.
pub open spec fn kept_in_form(b: u8) -> bool {
    b == 0x2a || b == 0x2d || b == 0x2e || b == 0x5f || (0x30 <= b && b <= 0x39) || (0x41 <= b
        && b <= 0x5a) || (0x61 <= b && b <= 0x7a)
}

/// An upper-case hexadecimal digit for `d < 16`.
pub open spec fn hex_digit(d: u8) -> u8 {
    if d < 10 {
        (0x30 + d) as u8
    } else {
        (0x41 + d - 10) as u8
    }
}

/// How one byte is written: kept, a space as `+`, anything else as `%XX`.
pub open spec fn form_byte(b: u8) -> Seq<u8> {
    if kept_in_form(b) {
        seq![b]
    } else if b == 0x20 {
        seq![0x2bu8]
    } else {
        seq![0x25u8, hex_digit(b / 16), hex_digit(b % 16)]
    }
}

/// The form serialization of a byte string, byte by byte.
pub open spec fn form_escape(bs: Seq<u8>) -> Seq<u8>
    decreases bs.len(),
{
    if bs.len() == 0 {
        Seq::empty()
    } else {
        form_escape(bs.drop_last()) + form_byte(bs.last())
    }
}

/// One `name=value` field, each side the escaped UTF-8 of the text.
pub open spec fn form_field(name: Seq<char>, value: Seq<char>) -> Seq<u8> {
    form_escape(encode_utf8(name)) + seq![0x3du8] + form_escape(encode_utf8(value))
}

/// The fields of `pairs` in order, joined by `&`.
pub open spec fn form_body(pairs: Seq<(Seq<char>, Seq<char>)>) -> Seq<u8>
    decreases pairs.len(),
{
    if pairs.len() == 0 {
        Seq::empty()
    } else if pairs.len() == 1 {
        form_field(pairs[0].0, pairs[0].1)
    } else {
        form_body(pairs.drop_last()) + seq![0x26u8] + form_field(pairs.last().0, pairs.last().1)
    }
}

/// The text of each pair of strings.
pub open spec fn pairs_view(pairs: Seq<(String, String)>) -> Seq<(Seq<char>, Seq<char>)> {
    pairs.map_values(|p: (String, String)| (p.0@, p.1@))
}

/// Encodes `pairs` as an `application/x-www-form-urlencoded` body.
pub fn encode_form(pairs: &Vec<(String, String)>) -> (r: Vec<u8>)
    ensures
        r@ == form_body(pairs_view(pairs@)),
{
    let mut out: Vec<u8> = Vec::new();
    let mut i: usize = 0;
    while i < pairs.len()
        invariant
            i <= pairs.len(),
            out@ == form_body(pairs_view(pairs@).take(i as int)),
        decreases pairs.len() - i,
    {
        let ghost before = out@;
        if i > 0 {
            out.push(0x26u8);
        }
        let mut name = form_serialize(pairs[i].0.as_str().as_bytes());
        out.append(&mut name);
        out.push(0x3du8);
        let mut value = form_serialize(pairs[i].1.as_str().as_bytes());
        out.append(&mut value);
        proof {
            let ps = pairs_view(pairs@);
            let next = ps.take(i + 1);
            assert(next.drop_last() =~= ps.take(i as int));
            assert(next.last() == ps[i as int]);
            if i == 0 {
                assert(out@ =~= form_field(next[0].0, next[0].1));
            } else {
                assert(out@ =~= before + seq![0x26u8] + form_field(next.last().0, next.last().1));
            }
        }
        i += 1;
    }
    assert(pairs_view(pairs@).take(pairs.len() as int) =~= pairs_view(pairs@));
    out
}

} // verus!
