//! The HTTP/1.1-shaped wire codec of the local transport: request frames are
//! parsed from bytes, responses are serialized to bytes. The shell moves the
//! bytes; every framing decision is made here.

use crate::command::Method;
use crate::text::{bytes_eq, parse_u64_dec, push_bytes, push_str_bytes, push_u64_dec, spec_all_digits, spec_dec_digits, spec_dec_value};
use vstd::prelude::*;
use vstd::string::StringSliceAdditionalSpecFns;

verus! {

pub const CR: u8 = 13;
pub const LF: u8 = 10;
pub const SP: u8 = 32;
pub const COLON: u8 = 58;

/// The least index holding `b`, if any.
pub open spec fn spec_find_byte(s: Seq<u8>, b: u8) -> Option<int>
    decreases s.len(),
{
    if s.len() == 0 {
        None
    } else if s[0] == b {
        Some(0)
    } else {
        match spec_find_byte(s.drop_first(), b) {
            Some(i) => Some(i + 1),
            None => None,
        }
    }
}

/// The least index where a CRLF pair starts, if any.
pub open spec fn spec_find_crlf(s: Seq<u8>) -> Option<int>
    decreases s.len(),
{
    if s.len() < 2 {
        None
    } else if s[0] == CR && s[1] == LF {
        Some(0)
    } else {
        match spec_find_crlf(s.drop_first()) {
            Some(i) => Some(i + 1),
            None => None,
        }
    }
}

proof fn lemma_find_byte_at(s: Seq<u8>, b: u8, i: int)
    requires
        0 <= i < s.len(),
        s[i] == b,
        forall|j: int| 0 <= j < i ==> s[j] != b,
    ensures
        spec_find_byte(s, b) == Some(i),
    decreases i,
{
    if i > 0 {
        lemma_find_byte_at(s.drop_first(), b, i - 1);
    }
}

proof fn lemma_find_byte_none(s: Seq<u8>, b: u8)
    requires
        forall|j: int| 0 <= j < s.len() ==> s[j] != b,
    ensures
        spec_find_byte(s, b) is None,
    decreases s.len(),
{
    if s.len() > 0 {
        lemma_find_byte_none(s.drop_first(), b);
    }
}

proof fn lemma_find_crlf_at(s: Seq<u8>, i: int)
    requires
        0 <= i,
        i + 1 < s.len(),
        s[i] == CR,
        s[i + 1] == LF,
        forall|j: int| 0 <= j < i ==> !(#[trigger] s[j] == CR && s[j + 1] == LF),
    ensures
        spec_find_crlf(s) == Some(i),
    decreases i,
{
    if i > 0 {
        lemma_find_crlf_at(s.drop_first(), i - 1);
    }
}

proof fn lemma_find_crlf_none(s: Seq<u8>)
    requires
        forall|j: int| 0 <= j && j + 1 < s.len() ==> !(#[trigger] s[j] == CR && s[j + 1] == LF),
    ensures
        spec_find_crlf(s) is None,
    decreases s.len(),
{
    if s.len() >= 2 {
        lemma_find_crlf_none(s.drop_first());
    }
}

/// Find the least index holding `b`.
pub fn find_byte(s: &[u8], b: u8) -> (r: Option<usize>)
    ensures
        (match r {
            Some(i) => spec_find_byte(s@, b) == Some(i as int) && i < s@.len(),
            None => spec_find_byte(s@, b) is None,
        }),
{
    let n = s.len();
    for i in 0..n
        invariant
            n == s@.len(),
            forall|j: int| 0 <= j < i ==> s@[j] != b,
    {
        if s[i] == b {
            proof {
                lemma_find_byte_at(s@, b, i as int);
            }
            return Some(i);
        }
    }
    proof {
        lemma_find_byte_none(s@, b);
    }
    None
}

/// Find the least index where a CRLF pair starts.
pub fn find_crlf(s: &[u8]) -> (r: Option<usize>)
    ensures
        (match r {
            Some(i) => spec_find_crlf(s@) == Some(i as int) && i + 1 < s@.len(),
            None => spec_find_crlf(s@) is None,
        }),
{
    if s.len() < 1 {
        proof {
            lemma_find_crlf_none(s@);
        }
        return None;
    }
    let end = s.len() - 1;
    for i in 0..end
        invariant
            end + 1 == s@.len(),
            forall|j: int| 0 <= j < i ==> !(#[trigger] s@[j] == CR && s@[j + 1] == LF),
    {
        if s[i] == CR && s[i + 1] == LF {
            proof {
                lemma_find_crlf_at(s@, i as int);
            }
            return Some(i);
        }
    }
    proof {
        lemma_find_crlf_none(s@);
    }
    None
}

/// Where the head of a request frame ends: the index just past the first
/// blank line (`CRLF CRLF`), if one is present. The shell reads from the
/// connection until this is `Some`, and hands the codec exactly that prefix.
pub open spec fn spec_head_end(s: Seq<u8>) -> Option<int> {
    match spec_find_double_crlf(s) {
        Some(i) => Some(i + 4),
        None => None,
    }
}

/// The least index where `CRLF CRLF` starts, if any.
pub open spec fn spec_find_double_crlf(s: Seq<u8>) -> Option<int>
    decreases s.len(),
{
    if s.len() < 4 {
        None
    } else if s[0] == CR && s[1] == LF && s[2] == CR && s[3] == LF {
        Some(0)
    } else {
        match spec_find_double_crlf(s.drop_first()) {
            Some(i) => Some(i + 1),
            None => None,
        }
    }
}

proof fn lemma_find_double_crlf_at(s: Seq<u8>, i: int)
    requires
        0 <= i,
        i + 3 < s.len(),
        s[i] == CR && s[i + 1] == LF && s[i + 2] == CR && s[i + 3] == LF,
        forall|j: int|
            0 <= j < i ==> !(#[trigger] s[j] == CR && s[j + 1] == LF && s[j + 2] == CR && s[j + 3] == LF),
    ensures
        spec_find_double_crlf(s) == Some(i),
    decreases i,
{
    if i > 0 {
        lemma_find_double_crlf_at(s.drop_first(), i - 1);
    }
}

proof fn lemma_find_double_crlf_none(s: Seq<u8>)
    requires
        forall|j: int|
            0 <= j && j + 3 < s.len() ==> !(#[trigger] s[j] == CR && s[j + 1] == LF && s[j + 2] == CR && s[j
                + 3] == LF),
    ensures
        spec_find_double_crlf(s) is None,
    decreases s.len(),
{
    if s.len() >= 4 {
        lemma_find_double_crlf_none(s.drop_first());
    }
}

/// Find where the head of a request frame ends: just past the first blank
/// line.
pub fn find_head_end(s: &[u8]) -> (r: Option<usize>)
    ensures
        (match r {
            Some(e) => spec_head_end(s@) == Some(e as int) && 4 <= e <= s@.len(),
            None => spec_head_end(s@) is None,
        }),
{
    if s.len() < 3 {
        proof {
            lemma_find_double_crlf_none(s@);
        }
        return None;
    }
    let end = s.len() - 3;
    for i in 0..end
        invariant
            end + 3 == s@.len(),
            forall|j: int|
                0 <= j < i ==> !(#[trigger] s@[j] == CR && s@[j + 1] == LF && s@[j + 2] == CR && s@[j + 3]
                    == LF),
    {
        if s[i] == CR && s[i + 1] == LF && s[i + 2] == CR && s[i + 3] == LF {
            proof {
                lemma_find_double_crlf_at(s@, i as int);
            }
            return Some(i + 4);
        }
    }
    proof {
        lemma_find_double_crlf_none(s@);
    }
    None
}

pub open spec fn spec_method_token(m: Method) -> Seq<u8> {
    match m {
        Method::Get => "GET".spec_bytes(),
        Method::Post => "POST".spec_bytes(),
        Method::Put => "PUT".spec_bytes(),
        Method::Delete => "DELETE".spec_bytes(),
    }
}

pub open spec fn spec_parse_method(tok: Seq<u8>) -> Option<Method> {
    if tok == "GET".spec_bytes() {
        Some(Method::Get)
    } else if tok == "POST".spec_bytes() {
        Some(Method::Post)
    } else if tok == "PUT".spec_bytes() {
        Some(Method::Put)
    } else if tok == "DELETE".spec_bytes() {
        Some(Method::Delete)
    } else {
        None
    }
}

/// A request line is `method SP path SP HTTP/1.1` with a known method and a
/// non-empty path.
pub open spec fn spec_parse_request_line(line: Seq<u8>) -> Option<(Method, Seq<u8>)> {
    match spec_find_byte(line, SP) {
        None => None,
        Some(i) => {
            let tok = line.take(i);
            let rem = line.skip(i + 1);
            match spec_find_byte(rem, SP) {
                None => None,
                Some(k) => {
                    let path = rem.take(k);
                    let version = rem.skip(k + 1);
                    if version == "HTTP/1.1".spec_bytes() && path.len() > 0 {
                        match spec_parse_method(tok) {
                            Some(m) => Some((m, path)),
                            None => None,
                        }
                    } else {
                        None
                    }
                },
            }
        },
    }
}

/// Leading spaces of a header value are not part of it.
pub open spec fn spec_trim_spaces(s: Seq<u8>) -> Seq<u8>
    decreases s.len(),
{
    if s.len() > 0 && s[0] == SP {
        spec_trim_spaces(s.drop_first())
    } else {
        s
    }
}

/// A header line is `name ":" OWS value` with a non-empty name.
pub open spec fn spec_parse_header_line(line: Seq<u8>) -> Option<(Seq<u8>, Seq<u8>)> {
    match spec_find_byte(line, COLON) {
        None => None,
        Some(i) => {
            if i > 0 {
                Some((line.take(i), spec_trim_spaces(line.skip(i + 1))))
            } else {
                None
            }
        },
    }
}

/// A header block is header lines each ended by CRLF, closed by a blank line;
/// nothing may follow the blank line.
pub open spec fn spec_parse_header_block(s: Seq<u8>) -> Option<Seq<(Seq<u8>, Seq<u8>)>>
    decreases s.len(),
{
    if s.len() == 2 && s[0] == CR && s[1] == LF {
        Some(Seq::empty())
    } else {
        match spec_find_crlf(s) {
            None => None,
            Some(i) => {
                if i < 1 || i + 2 > s.len() {
                    None
                } else {
                    let line = s.take(i);
                    let rest = s.skip(i + 2);
                    match spec_parse_header_line(line) {
                        None => None,
                        Some(h) => match spec_parse_header_block(rest) {
                            None => None,
                            Some(t) => Some(seq![h] + t),
                        },
                    }
                }
            },
        }
    }
}

/// The abstract content of a request head.
#[verifier::ext_equal]
pub ghost struct RequestHeadV {
    pub method: Method,
    pub path: Seq<u8>,
    pub headers: Seq<(Seq<u8>, Seq<u8>)>,
}

/// A request head is a request line, then a header block.
pub open spec fn spec_parse_request(s: Seq<u8>) -> Option<RequestHeadV> {
    match spec_find_crlf(s) {
        None => None,
        Some(i) => {
            let line = s.take(i);
            let rest = if i + 2 <= s.len() {
                s.skip(i + 2)
            } else {
                Seq::empty()
            };
            match spec_parse_request_line(line) {
                None => None,
                Some((m, p)) => match spec_parse_header_block(rest) {
                    None => None,
                    Some(hs) => Some(RequestHeadV { method: m, path: p, headers: hs }),
                },
            }
        },
    }
}

/// One parsed header field.
pub struct HeaderField {
    pub name: Vec<u8>,
    pub value: Vec<u8>,
}

impl View for HeaderField {
    type V = (Seq<u8>, Seq<u8>);

    open spec fn view(&self) -> (Seq<u8>, Seq<u8>) {
        (self.name@, self.value@)
    }
}

pub open spec fn spec_headers_view(hs: Seq<HeaderField>) -> Seq<(Seq<u8>, Seq<u8>)> {
    hs.map_values(|h: HeaderField| h@)
}

/// A parsed request head: the method, the path, and the header fields in
/// order.
pub struct RequestHead {
    pub method: Method,
    pub path: Vec<u8>,
    pub headers: Vec<HeaderField>,
}

impl View for RequestHead {
    type V = RequestHeadV;

    open spec fn view(&self) -> RequestHeadV {
        RequestHeadV { method: self.method, path: self.path@, headers: spec_headers_view(self.headers@) }
    }
}

pub open spec fn spec_prepend_headers(
    pre: Seq<(Seq<u8>, Seq<u8>)>,
    r: Option<Seq<(Seq<u8>, Seq<u8>)>>,
) -> Option<Seq<(Seq<u8>, Seq<u8>)>> {
    match r {
        Some(t) => Some(pre + t),
        None => None,
    }
}

proof fn lemma_prepend_empty(r: Option<Seq<(Seq<u8>, Seq<u8>)>>)
    ensures
        spec_prepend_headers(Seq::empty(), r) == r,
{
    match r {
        Some(t) => {
            assert(Seq::empty() + t =~= t);
        },
        None => {},
    }
}

proof fn lemma_prepend_cons(
    pre: Seq<(Seq<u8>, Seq<u8>)>,
    h: (Seq<u8>, Seq<u8>),
    r: Option<Seq<(Seq<u8>, Seq<u8>)>>,
)
    ensures
        spec_prepend_headers(pre.push(h), r) == (match r {
            Some(t) => Some(pre + (seq![h] + t)),
            None => None::<Seq<(Seq<u8>, Seq<u8>)>>,
        }),
{
    match r {
        Some(t) => {
            assert(pre.push(h) + t =~= pre + (seq![h] + t));
        },
        None => {},
    }
}

proof fn lemma_find_crlf_props(s: Seq<u8>)
    ensures
        spec_find_crlf(s) matches Some(i) ==> 0 <= i && i + 1 < s.len() && s[i] == CR && s[i + 1]
            == LF,
    decreases s.len(),
{
    if s.len() >= 2 && !(s[0] == CR && s[1] == LF) {
        lemma_find_crlf_props(s.drop_first());
    }
}

proof fn lemma_trim_spaces_at(s: Seq<u8>, k: int)
    requires
        0 <= k <= s.len(),
        forall|j: int| 0 <= j < k ==> s[j] == SP,
        k == s.len() || s[k] != SP,
    ensures
        spec_trim_spaces(s) == s.skip(k),
    decreases k,
{
    if k > 0 {
        lemma_trim_spaces_at(s.drop_first(), k - 1);
        assert(s.drop_first().skip(k - 1) =~= s.skip(k));
    } else {
        assert(s.skip(0) =~= s);
    }
}

/// Parse a request head (everything up to and including the blank line):
/// exactly the frames of the wire grammar parse, to exactly their abstract
/// content.
#[verifier::loop_isolation(false)]
pub fn parse_request(s: &[u8]) -> (r: Option<RequestHead>)
    ensures
        (match r {
            Some(h) => spec_parse_request(s@) == Some(h@),
            None => spec_parse_request(s@) is None,
        }),
{
    let slen = s.len();
    let line_end = match find_crlf(s) {
        Some(i) => i,
        None => {
            return None;
        },
    };
    let line = vstd::slice::slice_subrange(s, 0, line_end);
    proof {
        assert(line@ =~= s@.take(line_end as int));
    }
    let sp1 = match find_byte(line, SP) {
        Some(i) => i,
        None => {
            return None;
        },
    };
    let tok = vstd::slice::slice_subrange(line, 0, sp1);
    let rem = vstd::slice::slice_subrange(line, sp1 + 1, line.len());
    proof {
        assert(tok@ =~= line@.take(sp1 as int));
        assert(rem@ =~= line@.skip(sp1 as int + 1));
    }
    let sp2 = match find_byte(rem, SP) {
        Some(k) => k,
        None => {
            return None;
        },
    };
    let path_sl = vstd::slice::slice_subrange(rem, 0, sp2);
    let version = vstd::slice::slice_subrange(rem, sp2 + 1, rem.len());
    proof {
        assert(path_sl@ =~= rem@.take(sp2 as int));
        assert(version@ =~= rem@.skip(sp2 as int + 1));
    }
    if !bytes_eq(version, "HTTP/1.1".as_bytes()) {
        return None;
    }
    if path_sl.len() == 0 {
        return None;
    }
    let method: Method;
    if bytes_eq(tok, "GET".as_bytes()) {
        method = Method::Get;
    } else if bytes_eq(tok, "POST".as_bytes()) {
        method = Method::Post;
    } else if bytes_eq(tok, "PUT".as_bytes()) {
        method = Method::Put;
    } else if bytes_eq(tok, "DELETE".as_bytes()) {
        method = Method::Delete;
    } else {
        return None;
    }
    let ghost block0: Seq<u8> = s@.skip(line_end as int + 2);
    let mut headers: Vec<HeaderField> = Vec::new();
    let mut off: usize = line_end + 2;
    proof {
        lemma_prepend_empty(spec_parse_header_block(block0));
        assert(spec_headers_view(headers@) =~= Seq::<(Seq<u8>, Seq<u8>)>::empty());
    }
    loop
        invariant
            line_end + 2 <= off <= s@.len(),
            spec_parse_header_block(block0) == spec_prepend_headers(
                spec_headers_view(headers@),
                spec_parse_header_block(s@.skip(off as int)),
            ),
        decreases s@.len() - off,
    {
        let rest = vstd::slice::slice_subrange(s, off, s.len());
        proof {
            assert(rest@ =~= s@.skip(off as int));
        }
        let i = match find_crlf(rest) {
            Some(i) => i,
            None => {
                return None;
            },
        };
        if i == 0 {
            if off + 2 == s.len() {
                proof {
                    lemma_find_crlf_props(rest@);
                    assert(s@.skip(off as int).len() == 2);
                    assert(spec_parse_header_block(s@.skip(off as int)) == Some(
                        Seq::<(Seq<u8>, Seq<u8>)>::empty(),
                    ));
                    assert(spec_headers_view(headers@) + Seq::<(Seq<u8>, Seq<u8>)>::empty()
                        =~= spec_headers_view(headers@));
                }
                let head = RequestHead { method, path: vstd::slice::slice_to_vec(path_sl), headers };
                proof {
                    assert(spec_parse_request(s@) matches Some(v) && v =~= head@);
                }
                return Some(head);
            } else {
                proof {
                    assert(s@.skip(off as int).len() != 2);
                    assert(spec_parse_header_block(s@.skip(off as int)) is None);
                }
                return None;
            }
        }
        let hline = vstd::slice::slice_subrange(rest, 0, i);
        proof {
            assert(hline@ =~= rest@.take(i as int));
        }
        let c = match find_byte(hline, COLON) {
            Some(c) => c,
            None => {
                return None;
            },
        };
        if c == 0 {
            return None;
        }
        let name_sl = vstd::slice::slice_subrange(hline, 0, c);
        let mut vstart: usize = c + 1;
        while vstart < hline.len() && hline[vstart] == SP
            invariant
                c + 1 <= vstart <= hline@.len(),
                forall|j: int| c + 1 <= j < vstart ==> hline@[j] == SP,
            decreases hline@.len() - vstart,
        {
            vstart = vstart + 1;
        }
        let value_sl = vstd::slice::slice_subrange(hline, vstart, hline.len());
        proof {
            assert(name_sl@ =~= hline@.take(c as int));
            assert(value_sl@ =~= hline@.skip(vstart as int));
            lemma_trim_spaces_at(hline@.skip(c as int + 1), vstart - (c as int + 1));
            assert(hline@.skip(c as int + 1).skip(vstart as int - (c as int + 1)) =~= hline@.skip(
                vstart as int,
            ));
            assert(spec_parse_header_line(hline@) == Some((name_sl@, value_sl@)));
        }
        let h = HeaderField {
            name: vstd::slice::slice_to_vec(name_sl),
            value: vstd::slice::slice_to_vec(value_sl),
        };
        let ghost pre = spec_headers_view(headers@);
        let ghost hv: (Seq<u8>, Seq<u8>) = h@;
        headers.push(h);
        proof {
            assert(spec_headers_view(headers@) =~= pre.push(hv));
            assert(rest@.skip(i as int + 2) =~= s@.skip(off as int + i as int + 2));
            lemma_prepend_cons(pre, hv, spec_parse_header_block(s@.skip(off as int + i as int + 2)));
            assert(spec_parse_header_block(s@.skip(off as int)) == (match spec_parse_header_block(
                s@.skip(off as int + i as int + 2),
            ) {
                Some(t) => Some(seq![hv] + t),
                None => None::<Seq<(Seq<u8>, Seq<u8>)>>,
            }));
        }
        off = off + i + 2;
    }
}

/// The value of the first header with the given name, if any.
pub open spec fn spec_header_lookup(hs: Seq<(Seq<u8>, Seq<u8>)>, name: Seq<u8>) -> Option<Seq<u8>>
    decreases hs.len(),
{
    if hs.len() == 0 {
        None
    } else if hs.first().0 == name {
        Some(hs.first().1)
    } else {
        spec_header_lookup(hs.drop_first(), name)
    }
}

proof fn lemma_header_lookup_skip(hs: Seq<(Seq<u8>, Seq<u8>)>, name: Seq<u8>, i: int)
    requires
        0 <= i <= hs.len(),
        forall|j: int| 0 <= j < i ==> #[trigger] hs[j].0 != name,
    ensures
        spec_header_lookup(hs, name) == spec_header_lookup(hs.skip(i), name),
    decreases i,
{
    if i > 0 {
        assert(hs.drop_first().skip(i - 1) =~= hs.skip(i));
        lemma_header_lookup_skip(hs.drop_first(), name, i - 1);
    } else {
        assert(hs.skip(0) =~= hs);
    }
}

/// Look a header up by its exact name.
pub fn header_value<'a>(headers: &'a Vec<HeaderField>, name: &str) -> (r: Option<&'a Vec<u8>>)
    ensures
        (match r {
            Some(v) => spec_header_lookup(spec_headers_view(headers@), name.spec_bytes()) == Some(
                v@,
            ),
            None => spec_header_lookup(spec_headers_view(headers@), name.spec_bytes()) is None,
        }),
{
    let n = headers.len();
    for i in 0..n
        invariant
            n == headers@.len(),
            forall|j: int| 0 <= j < i ==> #[trigger] spec_headers_view(headers@)[j].0
                != name.spec_bytes(),
    {
        if bytes_eq(headers[i].name.as_slice(), name.as_bytes()) {
            proof {
                lemma_header_lookup_skip(spec_headers_view(headers@), name.spec_bytes(), i as int);
                assert(spec_headers_view(headers@).skip(i as int).first() == spec_headers_view(
                    headers@,
                )[i as int]);
            }
            return Some(&headers[i].value);
        }
    }
    proof {
        lemma_header_lookup_skip(
            spec_headers_view(headers@),
            name.spec_bytes(),
            headers@.len() as int,
        );
        assert(spec_headers_view(headers@).skip(headers@.len() as int).len() == 0);
    }
    None
}

/// The body length a head announces: 0 with no `Content-Length` header, the
/// parsed value with a well-formed one, nothing with a malformed one.
pub open spec fn spec_content_length(hs: Seq<(Seq<u8>, Seq<u8>)>) -> Option<int> {
    match spec_header_lookup(hs, "Content-Length".spec_bytes()) {
        None => Some(0),
        Some(v) => {
            if v.len() > 0 && spec_all_digits(v) && spec_dec_value(v) <= u64::MAX as int {
                Some(spec_dec_value(v))
            } else {
                None
            }
        },
    }
}

/// How many body bytes follow the head. `None` is a malformed announcement
/// and the request is rejected.
pub fn content_length(headers: &Vec<HeaderField>) -> (r: Option<u64>)
    ensures
        (match r {
            Some(v) => spec_content_length(spec_headers_view(headers@)) == Some(v as int),
            None => spec_content_length(spec_headers_view(headers@)) is None,
        }),
{
    match header_value(headers, "Content-Length") {
        None => Some(0),
        Some(v) => parse_u64_dec(v.as_slice()),
    }
}

pub open spec fn spec_encode_header(h: (Seq<u8>, Seq<u8>)) -> Seq<u8> {
    h.0 + ": ".spec_bytes() + h.1 + "\r\n".spec_bytes()
}

pub open spec fn spec_encode_headers(hs: Seq<(Seq<u8>, Seq<u8>)>) -> Seq<u8>
    decreases hs.len(),
{
    if hs.len() == 0 {
        Seq::empty()
    } else {
        spec_encode_header(hs.first()) + spec_encode_headers(hs.drop_first())
    }
}

proof fn lemma_encode_headers_push(hs: Seq<(Seq<u8>, Seq<u8>)>, h: (Seq<u8>, Seq<u8>))
    ensures
        spec_encode_headers(hs.push(h)) =~= spec_encode_headers(hs) + spec_encode_header(h),
    decreases hs.len(),
{
    if hs.len() == 0 {
        assert(hs.push(h).drop_first() =~= hs);
    } else {
        assert(hs.push(h).drop_first() =~= hs.drop_first().push(h));
        assert(hs.push(h).first() == hs.first());
        lemma_encode_headers_push(hs.drop_first(), h);
    }
}

/// A whole request frame: the request line, the header fields, the blank
/// line, the body.
pub open spec fn spec_encode_request(
    m: Method,
    path: Seq<u8>,
    headers: Seq<(Seq<u8>, Seq<u8>)>,
    body: Seq<u8>,
) -> Seq<u8> {
    spec_method_token(m) + " ".spec_bytes() + path + " HTTP/1.1\r\n".spec_bytes()
        + spec_encode_headers(headers) + "\r\n".spec_bytes() + body
}

/// Serialize a request frame.
pub fn encode_request(m: Method, path: &str, headers: &Vec<HeaderField>, body: &[u8]) -> (r: Vec<
    u8,
>)
    ensures
        r@ == spec_encode_request(m, path.spec_bytes(), spec_headers_view(headers@), body@),
{
    let mut out: Vec<u8> = Vec::new();
    match m {
        Method::Get => push_str_bytes(&mut out, "GET"),
        Method::Post => push_str_bytes(&mut out, "POST"),
        Method::Put => push_str_bytes(&mut out, "PUT"),
        Method::Delete => push_str_bytes(&mut out, "DELETE"),
    }
    push_str_bytes(&mut out, " ");
    push_str_bytes(&mut out, path);
    push_str_bytes(&mut out, " HTTP/1.1\r\n");
    let ghost before_headers = out@;
    let n = headers.len();
    for i in 0..n
        invariant
            n == headers@.len(),
            out@ == before_headers + spec_encode_headers(
                spec_headers_view(headers@).take(i as int),
            ),
    {
        push_bytes(&mut out, headers[i].name.as_slice());
        push_str_bytes(&mut out, ": ");
        push_bytes(&mut out, headers[i].value.as_slice());
        push_str_bytes(&mut out, "\r\n");
        proof {
            let hv = spec_headers_view(headers@);
            assert(hv.take(i as int).push(hv[i as int]) =~= hv.take(i as int + 1));
            lemma_encode_headers_push(hv.take(i as int), hv[i as int]);
            assert(before_headers + spec_encode_headers(hv.take(i as int)) + hv[i as int].0
                + ": ".spec_bytes() + hv[i as int].1 + "\r\n".spec_bytes() =~= before_headers
                + spec_encode_headers(hv.take(i as int + 1)));
        }
    }
    proof {
        assert(spec_headers_view(headers@).take(headers@.len() as int) =~= spec_headers_view(
            headers@,
        ));
    }
    push_str_bytes(&mut out, "\r\n");
    push_bytes(&mut out, body);
    proof {
        assert(out@ =~= spec_encode_request(
            m,
            path.spec_bytes(),
            spec_headers_view(headers@),
            body@,
        ));
    }
    out
}

/// The reason phrase sent with a status code.
pub open spec fn spec_status_reason(status: u16) -> Seq<u8> {
    if status == 200 {
        "OK".spec_bytes()
    } else if status == 400 {
        "Bad Request".spec_bytes()
    } else if status == 401 {
        "Unauthorized".spec_bytes()
    } else if status == 404 {
        "Not Found".spec_bytes()
    } else if status == 503 {
        "Service Unavailable".spec_bytes()
    } else {
        "Unknown".spec_bytes()
    }
}

/// A whole response frame: status line, content type and length, blank line,
/// body.
pub open spec fn spec_encode_response(status: u16, content_type: Seq<u8>, body: Seq<u8>) -> Seq<
    u8,
> {
    "HTTP/1.1 ".spec_bytes() + spec_dec_digits(status as int) + " ".spec_bytes()
        + spec_status_reason(status) + "\r\nContent-Type: ".spec_bytes() + content_type
        + "\r\nContent-Length: ".spec_bytes() + spec_dec_digits(body.len() as int)
        + "\r\n\r\n".spec_bytes() + body
}

/// Bytes that may stand inside one line of a head: no CR, no LF.
pub open spec fn spec_line_clean(s: Seq<u8>) -> bool {
    forall|i: int| 0 <= i < s.len() ==> #[trigger] s[i] != CR && s[i] != LF
}

/// A path the grammar can carry: non-empty, no spaces, line-clean.
pub open spec fn spec_path_wf(p: Seq<u8>) -> bool {
    &&& p.len() > 0
    &&& spec_line_clean(p)
    &&& forall|i: int| 0 <= i < p.len() ==> #[trigger] p[i] != SP
}

/// A header the grammar can carry: a non-empty, colon-free, line-clean name;
/// a line-clean value without a leading space.
pub open spec fn spec_header_wf(h: (Seq<u8>, Seq<u8>)) -> bool {
    &&& h.0.len() > 0
    &&& spec_line_clean(h.0)
    &&& (forall|i: int| 0 <= i < h.0.len() ==> #[trigger] h.0[i] != COLON)
    &&& spec_line_clean(h.1)
    &&& (h.1.len() > 0 ==> h.1[0] != SP)
}

pub open spec fn spec_headers_wf(hs: Seq<(Seq<u8>, Seq<u8>)>) -> bool {
    forall|i: int| 0 <= i < hs.len() ==> spec_header_wf(#[trigger] hs[i])
}

proof fn lemma_wire_literal_bytes()
    ensures
        "GET".spec_bytes() =~= seq![71u8, 69u8, 84u8],
        "POST".spec_bytes() =~= seq![80u8, 79u8, 83u8, 84u8],
        "PUT".spec_bytes() =~= seq![80u8, 85u8, 84u8],
        "DELETE".spec_bytes() =~= seq![68u8, 69u8, 76u8, 69u8, 84u8, 69u8],
        "HTTP/1.1".spec_bytes() =~= seq![72u8, 84u8, 84u8, 80u8, 47u8, 49u8, 46u8, 49u8],
        " ".spec_bytes() =~= seq![SP],
        "\r\n".spec_bytes() =~= seq![CR, LF],
        ": ".spec_bytes() =~= seq![COLON, SP],
        " HTTP/1.1\r\n".spec_bytes() =~= seq![SP] + "HTTP/1.1".spec_bytes() + seq![CR, LF],
{
    reveal_strlit("GET");
    reveal_strlit("POST");
    reveal_strlit("PUT");
    reveal_strlit("DELETE");
    reveal_strlit("HTTP/1.1");
    reveal_strlit(" ");
    reveal_strlit("\r\n");
    reveal_strlit(": ");
    reveal_strlit(" HTTP/1.1\r\n");
    assert(vstd::utf8::is_ascii_chars("GET"@));
    assert(vstd::utf8::is_ascii_chars("POST"@));
    assert(vstd::utf8::is_ascii_chars("PUT"@));
    assert(vstd::utf8::is_ascii_chars("DELETE"@));
    assert(vstd::utf8::is_ascii_chars("HTTP/1.1"@));
    assert(vstd::utf8::is_ascii_chars(" "@));
    assert(vstd::utf8::is_ascii_chars("\r\n"@));
    assert(vstd::utf8::is_ascii_chars(": "@));
    assert(vstd::utf8::is_ascii_chars(" HTTP/1.1\r\n"@));
    vstd::string::is_ascii_spec_bytes("GET");
    vstd::string::is_ascii_spec_bytes("POST");
    vstd::string::is_ascii_spec_bytes("PUT");
    vstd::string::is_ascii_spec_bytes("DELETE");
    vstd::string::is_ascii_spec_bytes("HTTP/1.1");
    vstd::string::is_ascii_spec_bytes(" ");
    vstd::string::is_ascii_spec_bytes("\r\n");
    vstd::string::is_ascii_spec_bytes(": ");
    vstd::string::is_ascii_spec_bytes(" HTTP/1.1\r\n");
}

proof fn lemma_find_byte_concat(pre: Seq<u8>, rest: Seq<u8>, b: u8)
    requires
        forall|i: int| 0 <= i < pre.len() ==> #[trigger] pre[i] != b,
        rest.len() > 0,
        rest[0] == b,
    ensures
        spec_find_byte(pre + rest, b) == Some(pre.len() as int),
{
    let s = pre + rest;
    assert forall|j: int| 0 <= j < pre.len() implies s[j] != b by {
        assert(s[j] == pre[j]);
    }
    lemma_find_byte_at(s, b, pre.len() as int);
}

proof fn lemma_find_crlf_concat(line: Seq<u8>, rest: Seq<u8>)
    requires
        spec_line_clean(line),
        rest.len() >= 2,
        rest[0] == CR,
        rest[1] == LF,
    ensures
        spec_find_crlf(line + rest) == Some(line.len() as int),
{
    let s = line + rest;
    assert forall|j: int| 0 <= j < line.len() implies !(#[trigger] s[j] == CR && s[j + 1] == LF) by {
        assert(s[j] == line[j]);
    }
    lemma_find_crlf_at(s, line.len() as int);
}

proof fn lemma_method_token_wf(m: Method)
    ensures
        spec_method_token(m).len() > 0,
        spec_line_clean(spec_method_token(m)),
        forall|i: int| 0 <= i < spec_method_token(m).len() ==> #[trigger] spec_method_token(m)[i]
            != SP,
        spec_parse_method(spec_method_token(m)) == Some(m),
{
    lemma_wire_literal_bytes();
}

proof fn lemma_parse_request_line_inverts(m: Method, path: Seq<u8>)
    requires
        spec_path_wf(path),
    ensures
        spec_parse_request_line(
            spec_method_token(m) + seq![SP] + path + seq![SP] + "HTTP/1.1".spec_bytes(),
        ) == Some((m, path)),
{
    lemma_wire_literal_bytes();
    lemma_method_token_wf(m);
    let tok = spec_method_token(m);
    let ver = "HTTP/1.1".spec_bytes();
    let line = tok + seq![SP] + path + seq![SP] + ver;
    assert(line =~= tok + (seq![SP] + path + seq![SP] + ver));
    lemma_find_byte_concat(tok, seq![SP] + path + seq![SP] + ver, SP);
    assert(line.take(tok.len() as int) =~= tok);
    let rem = line.skip(tok.len() as int + 1);
    assert(rem =~= path + (seq![SP] + ver));
    lemma_find_byte_concat(path, seq![SP] + ver, SP);
    assert(rem.take(path.len() as int) =~= path);
    assert(rem.skip(path.len() as int + 1) =~= ver);
}

proof fn lemma_parse_header_block_inverts(hs: Seq<(Seq<u8>, Seq<u8>)>)
    requires
        spec_headers_wf(hs),
    ensures
        spec_parse_header_block(spec_encode_headers(hs) + "\r\n".spec_bytes()) == Some(hs),
    decreases hs.len(),
{
    lemma_wire_literal_bytes();
    let s = spec_encode_headers(hs) + "\r\n".spec_bytes();
    if hs.len() == 0 {
        assert(s =~= seq![CR, LF]);
        assert(Seq::<(Seq<u8>, Seq<u8>)>::empty() =~= hs);
    } else {
        let h = hs.first();
        assert(spec_header_wf(h));
        let line = h.0 + seq![COLON, SP] + h.1;
        let rest = spec_encode_headers(hs.drop_first()) + "\r\n".spec_bytes();
        assert(s =~= line + (seq![CR, LF] + rest));
        assert forall|i: int| 0 <= i < line.len() implies #[trigger] line[i] != CR && line[i]
            != LF by {
            if i < h.0.len() {
                assert(line[i] == h.0[i]);
            } else if i == h.0.len() {
                assert(line[i] == COLON);
            } else if i == h.0.len() + 1 {
                assert(line[i] == SP);
            } else {
                assert(line[i] == h.1[i - h.0.len() - 2]);
            }
        }
        lemma_find_crlf_concat(line, seq![CR, LF] + rest);
        assert(s.take(line.len() as int) =~= line);
        assert(s.skip(line.len() as int + 2) =~= rest);
        lemma_find_byte_concat(h.0, seq![COLON, SP] + h.1, COLON);
        assert(line =~= h.0 + (seq![COLON, SP] + h.1));
        assert(line.take(h.0.len() as int) =~= h.0);
        assert(line.skip(h.0.len() as int + 1) =~= seq![SP] + h.1);
        lemma_trim_spaces_at(seq![SP] + h.1, 1);
        assert((seq![SP] + h.1).skip(1) =~= h.1);
        assert(spec_trim_spaces(line.skip(h.0.len() as int + 1)) == h.1);
        assert(h == (h.0, h.1));
        assert(spec_parse_header_line(line) == Some(h));
        assert(spec_headers_wf(hs.drop_first())) by {
            assert forall|i: int| 0 <= i < hs.drop_first().len() implies spec_header_wf(
                #[trigger] hs.drop_first()[i],
            ) by {
                assert(hs.drop_first()[i] == hs[i + 1]);
            }
        }
        lemma_parse_header_block_inverts(hs.drop_first());
        assert(seq![h] + hs.drop_first() =~= hs);
    }
}

/// Parsing inverts serialization: every frame the encoder can produce for a
/// well-formed path and header list parses back to exactly that method, path
/// and header list. The head of a frame with a body is the frame with the
/// empty body.
pub proof fn lemma_parse_inverts_encode(
    m: Method,
    path: Seq<u8>,
    headers: Seq<(Seq<u8>, Seq<u8>)>,
    body: Seq<u8>,
)
    requires
        spec_path_wf(path),
        spec_headers_wf(headers),
    ensures
        spec_parse_request(spec_encode_request(m, path, headers, Seq::empty())) == Some(
            RequestHeadV { method: m, path: path, headers: headers },
        ),
        spec_encode_request(m, path, headers, body) =~= spec_encode_request(
            m,
            path,
            headers,
            Seq::empty(),
        ) + body,
{
    lemma_wire_literal_bytes();
    lemma_method_token_wf(m);
    let frame = spec_encode_request(m, path, headers, Seq::empty());
    let tok = spec_method_token(m);
    let ver = "HTTP/1.1".spec_bytes();
    let line = tok + seq![SP] + path + seq![SP] + ver;
    let rest = spec_encode_headers(headers) + "\r\n".spec_bytes();
    assert(frame =~= line + (seq![CR, LF] + rest));
    assert forall|i: int| 0 <= i < line.len() implies #[trigger] line[i] != CR && line[i] != LF by {
        if i < tok.len() {
            assert(line[i] == tok[i]);
        } else if i == tok.len() {
            assert(line[i] == SP);
        } else if i < tok.len() + 1 + path.len() {
            assert(line[i] == path[i - tok.len() - 1]);
        } else if i == tok.len() + 1 + path.len() {
            assert(line[i] == SP);
        } else {
            assert(line[i] == ver[i - tok.len() - path.len() - 2]);
        }
    }
    lemma_find_crlf_concat(line, seq![CR, LF] + rest);
    assert(frame.take(line.len() as int) =~= line);
    assert(frame.skip(line.len() as int + 2) =~= rest);
    lemma_parse_request_line_inverts(m, path);
    lemma_parse_header_block_inverts(headers);
    assert(spec_parse_request(frame) matches Some(v) && v =~= (RequestHeadV {
        method: m,
        path: path,
        headers: headers,
    }));
}

/// Serialize a response frame.
pub fn encode_response(status: u16, content_type: &str, body: &[u8]) -> (r: Vec<u8>)
    ensures
        r@ == spec_encode_response(status, content_type.spec_bytes(), body@),
{
    let mut out: Vec<u8> = Vec::new();
    push_str_bytes(&mut out, "HTTP/1.1 ");
    push_u64_dec(&mut out, status as u64);
    push_str_bytes(&mut out, " ");
    if status == 200 {
        push_str_bytes(&mut out, "OK");
    } else if status == 400 {
        push_str_bytes(&mut out, "Bad Request");
    } else if status == 401 {
        push_str_bytes(&mut out, "Unauthorized");
    } else if status == 404 {
        push_str_bytes(&mut out, "Not Found");
    } else if status == 503 {
        push_str_bytes(&mut out, "Service Unavailable");
    } else {
        push_str_bytes(&mut out, "Unknown");
    }
    push_str_bytes(&mut out, "\r\nContent-Type: ");
    push_str_bytes(&mut out, content_type);
    push_str_bytes(&mut out, "\r\nContent-Length: ");
    push_u64_dec(&mut out, body.len() as u64);
    push_str_bytes(&mut out, "\r\n\r\n");
    push_bytes(&mut out, body);
    proof {
        assert(out@ =~= spec_encode_response(status, content_type.spec_bytes(), body@));
    }
    out
}

} // verus!
