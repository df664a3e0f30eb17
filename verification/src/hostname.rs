//! Decoding of the raw host-name buffer: the fixed-size byte buffer is read
//! up to its first zero byte and interpreted as UTF-8 text. When the bytes
//! are not valid text, a best-effort escaped representation of the bytes is
//! produced instead, so one malformed name never aborts the whole report.

use crate::strutil::{hex_char, push_char, spec_hex_char, utf8_to_string};
use vstd::prelude::*;
use vstd::utf8::{decode_utf8, valid_utf8};

verus! {

/// The prefix of `b` up to (excluding) its first zero byte; all of `b` when
/// no byte is zero.
pub open spec fn spec_nul_prefix(b: Seq<u8>) -> Seq<u8>
    decreases b.len(),
{
    if b.len() == 0 {
        b
    } else if b[0] == 0 {
        Seq::empty()
    } else {
        seq![b[0]] + spec_nul_prefix(b.drop_first())
    }
}

/// Copy `buf` up to its first zero byte.
pub fn truncate_at_nul(buf: &Vec<u8>) -> (r: Vec<u8>)
    ensures
        r@ == spec_nul_prefix(buf@),
{
    let mut out: Vec<u8> = Vec::new();
    let mut i: usize = 0;
    proof {
        assert(buf@.skip(0) =~= buf@);
        assert(out@ + spec_nul_prefix(buf@) =~= spec_nul_prefix(buf@));
    }
    while i < buf.len() && buf[i] != 0
        invariant
            i <= buf@.len(),
            out@.len() == i,
            spec_nul_prefix(buf@) == out@ + spec_nul_prefix(buf@.skip(i as int)),
            forall|j: int| 0 <= j < i ==> buf@[j] != 0,
        decreases buf@.len() - i,
    {
        out.push(buf[i]);
        proof {
            let rest = buf@.skip(i as int);
            assert(rest[0] == buf@[i as int]);
            assert(rest.drop_first() =~= buf@.skip(i + 1));
            assert(out@ + buf@.skip(i + 1).take(0) =~= out@);
        }
        i = i + 1;
        proof {
            assert(spec_nul_prefix(buf@) =~= out@ + spec_nul_prefix(buf@.skip(i as int)));
        }
    }
    proof {
        if i < buf@.len() {
            assert(buf@.skip(i as int)[0] == 0);
            assert(spec_nul_prefix(buf@.skip(i as int)) =~= Seq::<u8>::empty());
        } else {
            assert(buf@.skip(i as int) =~= Seq::<u8>::empty());
        }
        assert(out@ =~= spec_nul_prefix(buf@));
    }
    out
}

/// The escaped form of one byte, in the style of a byte-string debug
/// rendering: common escapes for tab, carriage return, newline, backslash
/// and the two quotes, printable ASCII as itself, and `\xNN` (lowercase hex)
/// for everything else.
pub open spec fn spec_escape_byte(b: u8) -> Seq<char> {
    if b == 0x09 {
        seq!['\\', 't']
    } else if b == 0x0d {
        seq!['\\', 'r']
    } else if b == 0x0a {
        seq!['\\', 'n']
    } else if b == 0x5c {
        seq!['\\', '\\']
    } else if b == 0x27 {
        seq!['\\', '\'']
    } else if b == 0x22 {
        seq!['\\', '"']
    } else if 0x20 <= b && b <= 0x7e {
        seq![b as char]
    } else {
        seq!['\\', 'x', spec_hex_char(b as int / 16), spec_hex_char(b as int % 16)]
    }
}

/// The concatenation of the escaped forms of all bytes.
pub open spec fn spec_escape_bytes(b: Seq<u8>) -> Seq<char>
    decreases b.len(),
{
    if b.len() == 0 {
        Seq::empty()
    } else {
        spec_escape_bytes(b.drop_last()) + spec_escape_byte(b.last())
    }
}

/// The escaped rendering of a whole byte sequence, wrapped in double quotes.
pub open spec fn spec_debug_bytes(b: Seq<u8>) -> Seq<char> {
    seq!['"'] + spec_escape_bytes(b) + seq!['"']
}

fn push_escape_byte(s: &mut String, b: u8)
    ensures
        final(s)@ == old(s)@ + spec_escape_byte(b),
{
    if b == 0x09 {
        push_char(s, '\\');
        push_char(s, 't');
    } else if b == 0x0d {
        push_char(s, '\\');
        push_char(s, 'r');
    } else if b == 0x0a {
        push_char(s, '\\');
        push_char(s, 'n');
    } else if b == 0x5c {
        push_char(s, '\\');
        push_char(s, '\\');
    } else if b == 0x27 {
        push_char(s, '\\');
        push_char(s, '\'');
    } else if b == 0x22 {
        push_char(s, '\\');
        push_char(s, '"');
    } else if 0x20 <= b && b <= 0x7e {
        push_char(s, b as char);
    } else {
        push_char(s, '\\');
        push_char(s, 'x');
        push_char(s, hex_char(b / 16));
        push_char(s, hex_char(b % 16));
    }
    proof {
        assert(final(s)@ =~= old(s)@ + spec_escape_byte(b));
    }
}

/// Render `buf` as a quoted, escaped byte string: the fallback shown for a
/// host name that is not valid text.
pub fn debug_bytes(buf: &Vec<u8>) -> (r: String)
    ensures
        r@ == spec_debug_bytes(buf@),
{
    let mut out = String::new();
    push_char(&mut out, '"');
    let mut i: usize = 0;
    while i < buf.len()
        invariant
            i <= buf@.len(),
            out@ == seq!['"'] + spec_escape_bytes(buf@.take(i as int)),
        decreases buf@.len() - i,
    {
        push_escape_byte(&mut out, buf[i]);
        proof {
            let t1 = buf@.take(i + 1);
            assert(t1.drop_last() =~= buf@.take(i as int));
            assert(t1.last() == buf@[i as int]);
            assert(out@ =~= seq!['"'] + spec_escape_bytes(t1));
        }
        i = i + 1;
    }
    push_char(&mut out, '"');
    proof {
        assert(buf@.take(i as int) =~= buf@);
        assert(out@ =~= spec_debug_bytes(buf@));
    }
    out
}

/// The decoded host name of a raw buffer: the bytes before the first zero
/// byte as text when they are valid UTF-8 (`Ok`), else their quoted escaped
/// rendering (`Err`).
pub open spec fn spec_decode_host_name(b: Seq<u8>) -> Result<Seq<char>, Seq<char>> {
    let t = spec_nul_prefix(b);
    if valid_utf8(t) {
        Ok(decode_utf8(t))
    } else {
        Err(spec_debug_bytes(t))
    }
}

/// Interpret a raw host-name buffer: truncate at the first zero byte, then
/// decode as UTF-8, falling back to the escaped byte rendering.
pub fn decode_host_name(buf: &Vec<u8>) -> (r: Result<String, String>)
    ensures
        r is Ok <==> valid_utf8(spec_nul_prefix(buf@)),
        r matches Ok(s) ==> s@ == decode_utf8(spec_nul_prefix(buf@)),
        r matches Err(s) ==> s@ == spec_debug_bytes(spec_nul_prefix(buf@)),
{
    let truncated = truncate_at_nul(buf);
    match utf8_to_string(truncated) {
        Ok(s) => Ok(s),
        Err(bytes) => Err(debug_bytes(&bytes)),
    }
}

} // verus!
