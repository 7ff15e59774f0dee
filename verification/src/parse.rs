//! Parsing of the first request line of a freshly accepted connection.
//!
//! Up to 4096 bytes are read from the client; the bytes up to the first
//! `\r\n` form the request line, whose first space-separated token is the
//! method and whose second is the target. Parsing is pure: it never
//! mutates the input and its result is a function of the input bytes.

use vstd::prelude::*;
use vstd::slice::slice_subrange;

use crate::failure::Failure;

verus! {

/// Carriage return.
pub const CR: u8 = 13;

/// Line feed.
pub const LF: u8 = 10;

/// ASCII space, the token separator of the request line.
pub const SP: u8 = 32;

/// The recognised request methods. Any other method token is a parse
/// failure (`Failure::UnknownMethod`); the connection is not relayed.
#[derive(Clone, Copy, Debug, PartialEq, Eq, Structural)]
pub enum Method {
    Get,
    Post,
    Put,
    Delete,
    Head,
    Options,
    Connect,
}

/// The outcome of parsing the initial bytes: the method, the raw target
/// string, and the raw bytes themselves (kept verbatim, since for plain
/// HTTP they are forwarded to the origin unchanged).
#[derive(Debug)]
pub struct ParsedRequest {
    /// The recognised method of the first token.
    pub method: Method,
    /// The second token of the request line, never empty.
    pub target: Vec<u8>,
    /// The bytes the request line was parsed from, unchanged.
    pub raw: Vec<u8>,
}

impl ParsedRequest {
    /// The invariant of a parsed request: both extracted strings are
    /// non-empty (their absence is a parse failure, never a default).
    pub open spec fn wf(self) -> bool {
        self.target@.len() > 0
    }
}

/// A `\r\n` pair starts at position `i` of `b`.
pub open spec fn crlf_at(b: Seq<u8>, i: int) -> bool {
    0 <= i && i + 2 <= b.len() && b[i] == CR && b[i + 1] == LF
}

/// The buffer holds a `\r\n`-terminated line.
pub open spec fn has_request_line(b: Seq<u8>) -> bool {
    exists|i: int| crlf_at(b, i)
}

/// `i` is the start of the first `\r\n` pair of `b`.
pub open spec fn is_line_end(b: Seq<u8>, i: int) -> bool {
    crlf_at(b, i) && (forall|j: int| 0 <= j < i ==> !crlf_at(b, j))
}

/// The position of the first `\r\n` pair of `b`; meaningful only when
/// `has_request_line(b)` holds.
pub open spec fn line_end(b: Seq<u8>) -> int {
    choose|i: int| is_line_end(b, i)
}

/// `s` holds no space in positions `lo..hi`.
pub open spec fn space_free(s: Seq<u8>, lo: int, hi: int) -> bool {
    forall|j: int| lo <= j < hi ==> s[j] != SP
}

/// `i` ends the token of `s` that starts at `from`: it is the first
/// position at or after `from` holding a space, or the end of `s`.
pub open spec fn is_token_end(s: Seq<u8>, from: int, i: int) -> bool {
    from <= i <= s.len() && (i == s.len() || s[i] == SP) && space_free(s, from, i)
}

/// The end of the token of `s` starting at `from`.
pub open spec fn token_end(s: Seq<u8>, from: int) -> int {
    choose|i: int| is_token_end(s, from, i)
}

/// The method named by a token, if any. The comparison is case-sensitive
/// and exact: `GET`, `POST`, `PUT`, `DELETE`, `HEAD`, `OPTIONS`, `CONNECT`.
pub open spec fn method_of(s: Seq<u8>) -> Option<Method> {
    if s == seq![71u8, 69u8, 84u8] {
        Some(Method::Get)
    } else if s == seq![80u8, 79u8, 83u8, 84u8] {
        Some(Method::Post)
    } else if s == seq![80u8, 85u8, 84u8] {
        Some(Method::Put)
    } else if s == seq![68u8, 69u8, 76u8, 69u8, 84u8, 69u8] {
        Some(Method::Delete)
    } else if s == seq![72u8, 69u8, 65u8, 68u8] {
        Some(Method::Head)
    } else if s == seq![79u8, 80u8, 84u8, 73u8, 79u8, 78u8, 83u8] {
        Some(Method::Options)
    } else if s == seq![67u8, 79u8, 78u8, 78u8, 69u8, 67u8, 84u8] {
        Some(Method::Connect)
    } else {
        None
    }
}

/// What parsing the initial bytes yields: the method and the target
/// token, or the failure. The request line is the bytes before the first
/// `\r\n`; its first token is the method and its second the target, both
/// required non-empty; tokens past the second (the HTTP version) are
/// ignored.
pub open spec fn spec_parse(b: Seq<u8>) -> Result<(Method, Seq<u8>), Failure> {
    if !has_request_line(b) {
        Err(Failure::MissingRequestLine)
    } else {
        let head = b.subrange(0, line_end(b));
        let m = token_end(head, 0);
        if m == 0 {
            Err(Failure::MissingMethod)
        } else if m == head.len() {
            Err(Failure::MissingTarget)
        } else {
            let t = token_end(head, m + 1);
            if t == m + 1 {
                Err(Failure::MissingTarget)
            } else {
                match method_of(head.subrange(0, m)) {
                    Some(method) => Ok((method, head.subrange(m + 1, t))),
                    None => Err(Failure::UnknownMethod),
                }
            }
        }
    }
}

/// The first `\r\n` position is unique.
proof fn lemma_line_end_unique(b: Seq<u8>, i: int, j: int)
    requires
        is_line_end(b, i),
        is_line_end(b, j),
    ensures
        i == j,
{
    if i < j {
        assert(!crlf_at(b, i));
    } else if j < i {
        assert(!crlf_at(b, j));
    }
}

/// Token ends are unique.
proof fn lemma_token_end_unique(s: Seq<u8>, from: int, i: int, j: int)
    requires
        is_token_end(s, from, i),
        is_token_end(s, from, j),
    ensures
        i == j,
{
    if i < j {
        assert(s[i] != SP);
    } else if j < i {
        assert(s[j] != SP);
    }
}

/// Every start position has a token end.
pub proof fn lemma_token_end_exists(s: Seq<u8>, from: int)
    requires
        0 <= from <= s.len(),
    ensures
        is_token_end(s, from, token_end(s, from)),
    decreases s.len() - from,
{
    if from == s.len() || s[from] == SP {
        assert(is_token_end(s, from, from));
    } else {
        lemma_token_end_exists(s, from + 1);
        let i = token_end(s, from + 1);
        assert(is_token_end(s, from, i));
    }
    let i = choose|i: int| is_token_end(s, from, i);
    lemma_token_end_unique(s, from, i, token_end(s, from));
}

/// Law: an input whose first line is unterminated (no `\r\n`), or whose
/// line has no non-empty first and second token, fails to parse; the
/// supervisor then never reaches the dialing stage for it.
pub proof fn lemma_incomplete_request_rejected(b: Seq<u8>)
    requires
        ({
            ||| !has_request_line(b)
            ||| {
                let head = b.subrange(0, line_end(b));
                let m = token_end(head, 0);
                ||| m == 0
                ||| m == head.len()
                ||| token_end(head, m + 1) == m + 1
            }
        }),
    ensures
        spec_parse(b) is Err,
{
}

/// Find the start of the first `\r\n` pair, if any.
fn find_line_end(input: &[u8]) -> (r: Option<usize>)
    ensures
        match r {
            Some(i) => is_line_end(input@, i as int),
            None => !has_request_line(input@),
        },
{
    let n = input.len();
    if n < 2 {
        return None;
    }
    let mut i: usize = 0;
    while i < n - 1
        invariant
            0 <= i <= n - 1,
            2 <= n == input@.len(),
            forall|j: int| 0 <= j < i ==> !crlf_at(input@, j),
        decreases n - i,
    {
        if input[i] == CR && input[i + 1] == LF {
            return Some(i);
        }
        i += 1;
    }
    None
}

/// Find the end of the token starting at `from`, looking no further than
/// `hi`: the first space at or after `from`, or `hi`.
fn find_token_end(s: &[u8], from: usize, hi: usize) -> (i: usize)
    requires
        from <= hi <= s@.len(),
    ensures
        from <= i <= hi,
        i < hi ==> s@[i as int] == SP,
        space_free(s@, from as int, i as int),
{
    let mut i = from;
    while i < hi
        invariant
            from <= i <= hi <= s@.len(),
            space_free(s@, from as int, i as int),
        decreases hi - i,
    {
        if s[i] == SP {
            return i;
        }
        i += 1;
    }
    i
}

/// Copy `s[lo..hi]` into a fresh vector.
pub fn copy_range(s: &[u8], lo: usize, hi: usize) -> (v: Vec<u8>)
    requires
        lo <= hi <= s@.len(),
    ensures
        v@ == s@.subrange(lo as int, hi as int),
{
    let mut v: Vec<u8> = Vec::new();
    let mut k = lo;
    while k < hi
        invariant
            lo <= k <= hi <= s@.len(),
            v@ == s@.subrange(lo as int, k as int),
        decreases hi - k,
    {
        v.push(s[k]);
        proof {
            assert(s@.subrange(lo as int, k + 1) =~= s@.subrange(lo as int, k as int).push(
                s@[k as int],
            ));
        }
        k += 1;
    }
    v
}

/// Classify a method token.
fn classify_method(s: &[u8]) -> (r: Option<Method>)
    ensures
        r == method_of(s@),
{
    let n = s.len();
    if n == 3 && s[0] == 71 && s[1] == 69 && s[2] == 84 {
        proof {
            assert(s@ =~= seq![71u8, 69u8, 84u8]);
        }
        Some(Method::Get)
    } else if n == 4 && s[0] == 80 && s[1] == 79 && s[2] == 83 && s[3] == 84 {
        proof {
            assert(s@ =~= seq![80u8, 79u8, 83u8, 84u8]);
        }
        Some(Method::Post)
    } else if n == 3 && s[0] == 80 && s[1] == 85 && s[2] == 84 {
        proof {
            assert(s@ =~= seq![80u8, 85u8, 84u8]);
        }
        Some(Method::Put)
    } else if n == 6 && s[0] == 68 && s[1] == 69 && s[2] == 76 && s[3] == 69 && s[4] == 84 && s[5]
        == 69 {
        proof {
            assert(s@ =~= seq![68u8, 69u8, 76u8, 69u8, 84u8, 69u8]);
        }
        Some(Method::Delete)
    } else if n == 4 && s[0] == 72 && s[1] == 69 && s[2] == 65 && s[3] == 68 {
        proof {
            assert(s@ =~= seq![72u8, 69u8, 65u8, 68u8]);
        }
        Some(Method::Head)
    } else if n == 7 && s[0] == 79 && s[1] == 80 && s[2] == 84 && s[3] == 73 && s[4] == 79 && s[5]
        == 78 && s[6] == 83 {
        proof {
            assert(s@ =~= seq![79u8, 80u8, 84u8, 73u8, 79u8, 78u8, 83u8]);
        }
        Some(Method::Options)
    } else if n == 7 && s[0] == 67 && s[1] == 79 && s[2] == 78 && s[3] == 78 && s[4] == 69 && s[5]
        == 67 && s[6] == 84 {
        proof {
            assert(s@ =~= seq![67u8, 79u8, 78u8, 78u8, 69u8, 67u8, 84u8]);
        }
        Some(Method::Connect)
    } else {
        proof {
            lemma_no_method(s@);
        }
        None
    }
}

/// In the fall-through branch of `classify_method` the token matched no
/// method literal, so `method_of` yields `None`; each literal is ruled
/// out by its length or a differing byte.
proof fn lemma_no_method(s: Seq<u8>)
    requires
        !(s.len() == 3 && s[0] == 71 && s[1] == 69 && s[2] == 84),
        !(s.len() == 4 && s[0] == 80 && s[1] == 79 && s[2] == 83 && s[3] == 84),
        !(s.len() == 3 && s[0] == 80 && s[1] == 85 && s[2] == 84),
        !(s.len() == 6 && s[0] == 68 && s[1] == 69 && s[2] == 76 && s[3] == 69 && s[4] == 84 && s[5]
            == 69),
        !(s.len() == 4 && s[0] == 72 && s[1] == 69 && s[2] == 65 && s[3] == 68),
        !(s.len() == 7 && s[0] == 79 && s[1] == 80 && s[2] == 84 && s[3] == 73 && s[4] == 79 && s[5]
            == 78 && s[6] == 83),
        !(s.len() == 7 && s[0] == 67 && s[1] == 79 && s[2] == 78 && s[3] == 78 && s[4] == 69 && s[5]
            == 67 && s[6] == 84),
    ensures
        method_of(s) is None,
{
}

/// Parse the initial bytes of a connection into a request, or say why
/// they do not form one. Pure: the input is only read, and the result is
/// the same on every call with the same bytes (it equals `spec_parse` of
/// the input).
pub fn parse_request(input: &[u8]) -> (r: Result<ParsedRequest, Failure>)
    ensures
        match r {
            Ok(req) => spec_parse(input@) == Ok::<_, Failure>((req.method, req.target@))
                && req.raw@ == input@ && req.wf(),
            Err(f) => spec_parse(input@) == Err::<(Method, Seq<u8>), _>(f)
                && f.is_parse_failure(),
        },
{
    let e = match find_line_end(input) {
        Some(e) => e,
        None => {
            return Err(Failure::MissingRequestLine);
        },
    };
    let ghost head = input@.subrange(0, e as int);
    proof {
        lemma_line_end_unique(input@, e as int, line_end(input@));
    }
    let m = find_token_end(input, 0, e);
    proof {
        assert(is_token_end(head, 0, m as int));
        lemma_token_end_exists(head, 0);
        lemma_token_end_unique(head, 0, m as int, token_end(head, 0));
    }
    if m == 0 {
        return Err(Failure::MissingMethod);
    }
    if m == e {
        return Err(Failure::MissingTarget);
    }
    let t = find_token_end(input, m + 1, e);
    proof {
        assert(is_token_end(head, m + 1, t as int));
        lemma_token_end_exists(head, m + 1);
        lemma_token_end_unique(head, m + 1, t as int, token_end(head, m + 1));
    }
    if t == m + 1 {
        return Err(Failure::MissingTarget);
    }
    let method_token = slice_subrange(input, 0, m);
    proof {
        assert(method_token@ =~= head.subrange(0, m as int));
    }
    let method = match classify_method(method_token) {
        Some(method) => method,
        None => {
            return Err(Failure::UnknownMethod);
        },
    };
    let target = copy_range(input, m + 1, t);
    proof {
        assert(target@ =~= head.subrange(m + 1, t as int));
    }
    let raw = copy_range(input, 0, input.len());
    proof {
        assert(raw@ =~= input@);
    }
    Ok(ParsedRequest { method, target, raw })
}

} // verus!
