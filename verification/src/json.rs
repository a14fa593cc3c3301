//! JSON serialization of the response envelope, at the byte level.
//!
//! Inside a JSON string only the quote, the backslash and the control bytes
//! need escaping; all other bytes pass through verbatim, which keeps UTF-8
//! text intact.

use crate::text::{push_str_bytes, push_u64_dec, spec_dec_digits};
use vstd::prelude::*;
use vstd::string::StringSliceAdditionalSpecFns;

verus! {

pub const QUOTE: u8 = 34;
pub const BACKSLASH: u8 = 92;

pub open spec fn spec_hex_digit(n: u8) -> u8 {
    if n < 10 {
        (48 + n) as u8
    } else {
        (87 + n) as u8
    }
}

/// How one byte of a string appears inside a JSON string.
pub open spec fn spec_json_escape_byte(b: u8) -> Seq<u8> {
    if b == QUOTE {
        seq![BACKSLASH, QUOTE]
    } else if b == BACKSLASH {
        seq![BACKSLASH, BACKSLASH]
    } else if b < 32 {
        seq![BACKSLASH, 117u8, 48u8, 48u8, spec_hex_digit(b / 16), spec_hex_digit(b % 16)]
    } else {
        seq![b]
    }
}

pub open spec fn spec_json_escape(s: Seq<u8>) -> Seq<u8>
    decreases s.len(),
{
    if s.len() == 0 {
        Seq::empty()
    } else {
        spec_json_escape_byte(s.first()) + spec_json_escape(s.drop_first())
    }
}

/// A JSON string: a quote, the escaped bytes, a quote.
pub open spec fn spec_json_string(s: Seq<u8>) -> Seq<u8> {
    seq![QUOTE] + spec_json_escape(s) + seq![QUOTE]
}

proof fn lemma_json_escape_push(s: Seq<u8>, b: u8)
    ensures
        spec_json_escape(s.push(b)) =~= spec_json_escape(s) + spec_json_escape_byte(b),
    decreases s.len(),
{
    if s.len() == 0 {
        assert(s.push(b).drop_first() =~= s);
    } else {
        assert(s.push(b).first() == s.first());
        assert(s.push(b).drop_first() =~= s.drop_first().push(b));
        lemma_json_escape_push(s.drop_first(), b);
    }
}

/// Append the escaped form of one byte.
fn push_json_escape_byte(out: &mut Vec<u8>, b: u8)
    ensures
        final(out)@ == old(out)@ + spec_json_escape_byte(b),
{
    if b == QUOTE {
        out.push(BACKSLASH);
        out.push(QUOTE);
        proof {
            assert(out@ =~= old(out)@ + spec_json_escape_byte(b));
        }
    } else if b == BACKSLASH {
        out.push(BACKSLASH);
        out.push(BACKSLASH);
        proof {
            assert(out@ =~= old(out)@ + spec_json_escape_byte(b));
        }
    } else if b < 32 {
        out.push(BACKSLASH);
        out.push(117);
        out.push(48);
        out.push(48);
        let hi = b / 16;
        let lo = b % 16;
        out.push(if hi < 10 { 48 + hi } else { 87 + hi });
        out.push(if lo < 10 { 48 + lo } else { 87 + lo });
        proof {
            assert(out@ =~= old(out)@ + spec_json_escape_byte(b));
        }
    } else {
        out.push(b);
        proof {
            assert(out@ =~= old(out)@ + spec_json_escape_byte(b));
        }
    }
}

/// Append a whole JSON string, quotes included.
pub fn push_json_string(out: &mut Vec<u8>, s: &str)
    ensures
        final(out)@ == old(out)@ + spec_json_string(s.spec_bytes()),
{
    out.push(QUOTE);
    let bytes = s.as_bytes();
    let ghost mid = out@;
    let n = bytes.len();
    for i in 0..n
        invariant
            n == bytes@.len(),
            out@ == mid + spec_json_escape(bytes@.take(i as int)),
    {
        push_json_escape_byte(out, bytes[i]);
        proof {
            assert(bytes@.take(i as int).push(bytes@[i as int]) =~= bytes@.take(i as int + 1));
            lemma_json_escape_push(bytes@.take(i as int), bytes@[i as int]);
        }
    }
    out.push(QUOTE);
    proof {
        assert(bytes@.take(bytes@.len() as int) =~= bytes@);
        assert(out@ =~= old(out)@ + spec_json_string(s.spec_bytes()));
    }
}

/// The common head of every response body: the code and the message.
pub open spec fn spec_json_response_head(code: u16, message: Seq<u8>) -> Seq<u8> {
    "{\"code\":".spec_bytes() + spec_dec_digits(code as int) + ",\"message\":".spec_bytes()
        + spec_json_string(message) + ",\"data\":".spec_bytes()
}

/// `{"code":c,"message":m,"data":null}`
pub open spec fn spec_json_response_null(code: u16, message: Seq<u8>) -> Seq<u8> {
    spec_json_response_head(code, message) + "null}".spec_bytes()
}

/// `{"code":c,"message":m,"data":"s"}`
pub open spec fn spec_json_response_string(code: u16, message: Seq<u8>, data: Seq<u8>) -> Seq<u8> {
    spec_json_response_head(code, message) + spec_json_string(data) + "}".spec_bytes()
}

/// The items of a JSON array after the first: each preceded by a comma.
pub open spec fn spec_json_items(items: Seq<Seq<u8>>) -> Seq<u8>
    decreases items.len(),
{
    if items.len() == 0 {
        Seq::empty()
    } else {
        seq![44u8] + spec_json_string(items.first()) + spec_json_items(items.drop_first())
    }
}

/// A JSON array of strings.
pub open spec fn spec_json_string_array(items: Seq<Seq<u8>>) -> Seq<u8> {
    if items.len() == 0 {
        "[]".spec_bytes()
    } else {
        seq![91u8] + spec_json_string(items.first()) + spec_json_items(items.drop_first()) + seq![
            93u8,
        ]
    }
}

/// `{"code":c,"message":m,"data":[...]}`
pub open spec fn spec_json_response_string_list(
    code: u16,
    message: Seq<u8>,
    items: Seq<Seq<u8>>,
) -> Seq<u8> {
    spec_json_response_head(code, message) + spec_json_string_array(items) + "}".spec_bytes()
}

fn push_json_response_head(out: &mut Vec<u8>, code: u16, message: &str)
    ensures
        final(out)@ == old(out)@ + spec_json_response_head(code, message.spec_bytes()),
{
    push_str_bytes(out, "{\"code\":");
    push_u64_dec(out, code as u64);
    push_str_bytes(out, ",\"message\":");
    push_json_string(out, message);
    push_str_bytes(out, ",\"data\":");
    proof {
        assert(out@ =~= old(out)@ + spec_json_response_head(code, message.spec_bytes()));
    }
}

/// The response body with no data.
pub fn json_response_null(code: u16, message: &str) -> (r: Vec<u8>)
    ensures
        r@ == spec_json_response_null(code, message.spec_bytes()),
{
    let mut out: Vec<u8> = Vec::new();
    push_json_response_head(&mut out, code, message);
    push_str_bytes(&mut out, "null}");
    proof {
        assert(out@ =~= spec_json_response_null(code, message.spec_bytes()));
    }
    out
}

/// The response body with one string of data.
pub fn json_response_string(code: u16, message: &str, data: &str) -> (r: Vec<u8>)
    ensures
        r@ == spec_json_response_string(code, message.spec_bytes(), data.spec_bytes()),
{
    let mut out: Vec<u8> = Vec::new();
    push_json_response_head(&mut out, code, message);
    push_json_string(&mut out, data);
    push_str_bytes(&mut out, "}");
    proof {
        assert(out@ =~= spec_json_response_string(
            code,
            message.spec_bytes(),
            data.spec_bytes(),
        ));
    }
    out
}

/// What a sequence of strings looks like as byte strings.
pub open spec fn spec_strings_bytes(items: Seq<Seq<char>>) -> Seq<Seq<u8>> {
    items.map_values(|t: Seq<char>| vstd::utf8::encode_utf8(t))
}

proof fn lemma_json_items_push(items: Seq<Seq<u8>>, x: Seq<u8>)
    ensures
        spec_json_items(items.push(x)) =~= spec_json_items(items) + seq![44u8] + spec_json_string(
            x,
        ),
    decreases items.len(),
{
    if items.len() == 0 {
        assert(items.push(x).drop_first() =~= items);
    } else {
        assert(items.push(x).first() == items.first());
        assert(items.push(x).drop_first() =~= items.drop_first().push(x));
        lemma_json_items_push(items.drop_first(), x);
    }
}

/// The response body with a list of strings as data.
#[verifier::loop_isolation(false)]
pub fn json_response_logs(code: u16, message: &str, logs: &Vec<String>) -> (r: Vec<u8>)
    ensures
        r@ == spec_json_response_string_list(
            code,
            message.spec_bytes(),
            spec_strings_bytes(logs@.map_values(|s: String| s@)),
        ),
{
    let ghost items: Seq<Seq<u8>> = spec_strings_bytes(logs@.map_values(|s: String| s@));
    let mut out: Vec<u8> = Vec::new();
    push_json_response_head(&mut out, code, message);
    if logs.len() == 0 {
        push_str_bytes(&mut out, "[]");
        proof {
            assert(items.len() == 0);
        }
    } else {
        out.push(91);
        push_json_string(&mut out, logs[0].as_str());
        proof {
            assert(items.first() == vstd::utf8::encode_utf8(logs@[0]@));
        }
        let ghost mid = out@;
        let n = logs.len();
        for i in 1..n
            invariant
                n == logs@.len(),
                1 <= i <= n,
                items == spec_strings_bytes(logs@.map_values(|s: String| s@)),
                items.len() == n,
                out@ == mid + spec_json_items(items.subrange(1, i as int)),
        {
            out.push(44);
            push_json_string(&mut out, logs[i].as_str());
            proof {
                assert(items.subrange(1, i as int).push(items[i as int]) =~= items.subrange(
                    1,
                    i as int + 1,
                ));
                lemma_json_items_push(items.subrange(1, i as int), items[i as int]);
                assert(items[i as int] == vstd::utf8::encode_utf8(logs@[i as int]@));
                assert(out@ =~= mid + spec_json_items(items.subrange(1, i as int + 1)));
            }
        }
        proof {
            assert(items.subrange(1, items.len() as int) =~= items.drop_first());
        }
        out.push(93);
    }
    push_str_bytes(&mut out, "}");
    proof {
        assert(out@ =~= spec_json_response_string_list(code, message.spec_bytes(), items));
    }
    out
}

} // verus!
