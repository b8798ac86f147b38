//! Base64 rendering of the embedded overlay document, and the in-memory
//! URI built from it.  The video input chain loads the overlay from this
//! URI, so no network access is needed for it.

use vstd::prelude::*;
use vstd::string::StringExecFns;
use vstd::string::StrSliceExecFns;

verus! {

/// The base64 alphabet, in value order.
pub open spec fn b64_alphabet() -> Seq<char> {
    "ABCDEFGHIJKLMNOPQRSTUVWXYZabcdefghijklmnopqrstuvwxyz0123456789+/"@
}

/// The base64 character of a six-bit value.
pub open spec fn b64_char(v: int) -> char {
    b64_alphabet()[v]
}

/// Standard base64 with padding: three bytes become four characters; a
/// final group of one or two bytes is padded with `=`.
pub open spec fn base64_of(bytes: Seq<u8>) -> Seq<char>
    decreases bytes.len(),
{
    if bytes.len() == 0 {
        Seq::empty()
    } else if bytes.len() == 1 {
        let b0 = bytes[0] as int;
        seq![b64_char(b0 / 4), b64_char((b0 % 4) * 16), '=', '=']
    } else if bytes.len() == 2 {
        let b0 = bytes[0] as int;
        let b1 = bytes[1] as int;
        seq![b64_char(b0 / 4), b64_char((b0 % 4) * 16 + b1 / 16), b64_char((b1 % 16) * 4), '=']
    } else {
        let b0 = bytes[0] as int;
        let b1 = bytes[1] as int;
        let b2 = bytes[2] as int;
        seq![
            b64_char(b0 / 4),
            b64_char((b0 % 4) * 16 + b1 / 16),
            b64_char((b1 % 16) * 4 + b2 / 64),
            b64_char(b2 % 64),
        ] + base64_of(bytes.skip(3))
    }
}

/// Appends the base64 character of a six-bit value.
fn append_b64(s: &mut String, v: u8)
    requires
        v < 64,
    ensures
        final(s)@ == old(s)@ + seq![b64_char(v as int)],
{
    let a = "ABCDEFGHIJKLMNOPQRSTUVWXYZabcdefghijklmnopqrstuvwxyz0123456789+/";
    proof {
        reveal_strlit("ABCDEFGHIJKLMNOPQRSTUVWXYZabcdefghijklmnopqrstuvwxyz0123456789+/");
        assert(a@.len() == 64);
        assert(a.is_ascii());
    }
    let piece = a.substring_ascii(v as usize, v as usize + 1);
    s.append(piece);
    proof {
        assert(a@.subrange(v as int, v as int + 1) =~= seq![b64_char(v as int)]);
    }
}

/// Appends the padding character.
fn append_pad(s: &mut String)
    ensures
        final(s)@ == old(s)@ + seq!['='],
{
    proof {
        reveal_strlit("=");
    }
    s.append("=");
    proof {
        assert("="@ =~= seq!['=']);
    }
}

/// Renders bytes as standard padded base64.
#[verifier::loop_isolation(false)]
pub fn base64_encode(bytes: &Vec<u8>) -> (r: String)
    ensures
        r@ == base64_of(bytes@),
{
    let mut r = String::new();
    let mut i: usize = 0;
    proof {
        assert(bytes@.skip(0) =~= bytes@);
        assert(r@ + base64_of(bytes@) =~= base64_of(bytes@));
    }
    while bytes.len() - i >= 3
        invariant
            i <= bytes@.len(),
            r@ + base64_of(bytes@.skip(i as int)) == base64_of(bytes@),
        decreases bytes@.len() - i,
    {
        let b0 = bytes[i];
        let b1 = bytes[i + 1];
        let b2 = bytes[i + 2];
        let ghost r0 = r@;
        append_b64(&mut r, b0 / 4);
        append_b64(&mut r, (b0 % 4) * 16 + b1 / 16);
        append_b64(&mut r, (b1 % 16) * 4 + b2 / 64);
        append_b64(&mut r, b2 % 64);
        proof {
            let tail = bytes@.skip(i as int);
            assert(tail.len() >= 3);
            assert(tail[0] == bytes@[i as int] && tail[1] == bytes@[i + 1] && tail[2] == bytes@[
                i + 2
            ]);
            assert(tail.skip(3) =~= bytes@.skip(i + 3));
            assert(r@ =~= r0 + seq![
                b64_char(tail[0] as int / 4),
                b64_char((tail[0] as int % 4) * 16 + tail[1] as int / 16),
                b64_char((tail[1] as int % 16) * 4 + tail[2] as int / 64),
                b64_char(tail[2] as int % 64),
            ]);
            assert(r@ + base64_of(bytes@.skip(i + 3)) =~= r0 + base64_of(tail));
        }
        i = i + 3;
    }
    let ghost r0 = r@;
    let ghost tail = bytes@.skip(i as int);
    if i < bytes.len() {
        let b0 = bytes[i];
        if i + 1 < bytes.len() {
            let b1 = bytes[i + 1];
            append_b64(&mut r, b0 / 4);
            append_b64(&mut r, (b0 % 4) * 16 + b1 / 16);
            append_b64(&mut r, (b1 % 16) * 4);
            append_pad(&mut r);
            proof {
                assert(tail.len() == 2);
                assert(tail[0] == bytes@[i as int] && tail[1] == bytes@[i + 1]);
                assert(r@ =~= r0 + base64_of(tail));
            }
        } else {
            append_b64(&mut r, b0 / 4);
            append_b64(&mut r, (b0 % 4) * 16);
            append_pad(&mut r);
            append_pad(&mut r);
            proof {
                assert(tail.len() == 1);
                assert(tail[0] == bytes@[i as int]);
                assert(r@ =~= r0 + base64_of(tail));
            }
        }
    } else {
        proof {
            assert(tail.len() == 0);
            assert(r@ =~= r0 + base64_of(tail));
        }
    }
    r
}

/// The in-memory URI under which the video input chain loads the
/// embedded overlay document: a base64 data URI, so the source performs
/// no network access.
pub fn video_data_uri(document: &Vec<u8>) -> (r: String)
    ensures
        r@ == "data:text/html;base64,"@ + base64_of(document@),
{
    let mut r = "data:text/html;base64,".to_owned();
    let encoded = base64_encode(document);
    r.append(encoded.as_str());
    r
}

} // verus!
