//! Resolution of a parsed target into the origin to dial.
//!
//! For the ordinary methods the target must be an absolute URL; its host
//! and port (explicit, or the scheme's known default) come from the `url`
//! crate. For `CONNECT` the target is split at its first `:` into a host
//! and a literal port, both required; no default is ever substituted.

use vstd::prelude::*;
use vstd::slice::slice_subrange;

use crate::failure::Failure;
use crate::parse::{Method, ParsedRequest};

verus! {

/// ASCII colon, the separator of a CONNECT target.
pub const COLON: u8 = 58;

/// A resolved origin: the host to dial and a usable port.
#[derive(Debug)]
pub struct Target {
    /// The host, never empty.
    pub host: Vec<u8>,
    /// The port, in 1..=65535.
    pub port: u16,
}

impl Target {
    /// The invariant of a resolved target.
    pub open spec fn wf(self) -> bool {
        self.host@.len() > 0 && self.port >= 1
    }
}

/// What `String::from_utf8_lossy` decodes the given bytes to.
pub uninterp spec fn decoded_text(b: Seq<u8>) -> Seq<char>;

/// Relies on `String::from_utf8_lossy`: the decoding is a function of the
/// bytes alone (valid UTF-8 decodes as itself, invalid sequences become
/// replacement characters).
#[verifier::external_body]
fn decode_lossy(b: &[u8]) -> (s: String)
    ensures
        s@ == decoded_text(b@),
{
    String::from_utf8_lossy(b).into_owned()
}

/// Whether `url::Url::parse` accepts the text as an absolute URL.
pub uninterp spec fn url_accepts(s: Seq<char>) -> bool;

/// The host `url::Url::host_str` reports for the URL the text parses to,
/// as bytes; `None` when the URL has no host.
pub uninterp spec fn url_host(s: Seq<char>) -> Option<Seq<u8>>;

/// The port `url::Url::port_or_known_default` reports for the URL the
/// text parses to: the explicit port, or the scheme's default (80 for
/// `http`, 443 for `https`, and so on), or `None` when there is neither.
pub uninterp spec fn url_port(s: Seq<char>) -> Option<u16>;

/// The scheme `url::Url::scheme` reports for the URL the text parses to,
/// as bytes.
pub uninterp spec fn url_scheme(s: Seq<char>) -> Seq<u8>;

/// The explicit port `url::Url::port` reports for the URL the text
/// parses to; `None` when the URL names no port.
pub uninterp spec fn url_explicit_port(s: Seq<char>) -> Option<u16>;

/// The bytes of the `http` scheme name.
pub open spec fn http_scheme() -> Seq<u8> {
    seq![104u8, 116u8, 116u8, 112u8]
}

/// The bytes of the `https` scheme name.
pub open spec fn https_scheme() -> Seq<u8> {
    seq![104u8, 116u8, 116u8, 112u8, 115u8]
}

/// Relies on `url::Url::parse`, `url::Url::host_str`, `url::Url::scheme`,
/// `url::Url::port` and `url::Url::port_or_known_default`, each a pure
/// function of the URL text: `parse` accepts exactly the absolute URLs;
/// on those, `host_str` names the host when there is one, `port` the
/// explicit port, and `port_or_known_default` the explicit port or,
/// absent one, the scheme's known default — in particular 80 for `http`
/// and 443 for `https`.
#[verifier::external_body]
fn parse_absolute_url(s: &str) -> (r: Option<(Option<Vec<u8>>, Option<u16>, Vec<u8>, Option<u16>)>)
    ensures
        r is Some <==> url_accepts(s@),
        r is Some ==> ({
            let parts = r->0;
            &&& match parts.0 {
                Some(h) => url_host(s@) == Some(h@),
                None => url_host(s@) is None,
            }
            &&& parts.1 == url_port(s@)
            &&& parts.2@ == url_scheme(s@)
            &&& parts.3 == url_explicit_port(s@)
        }),
        r is Some && url_explicit_port(s@) is Some ==> url_port(s@) == url_explicit_port(s@),
        r is Some && url_explicit_port(s@) is None && url_scheme(s@) == http_scheme()
            ==> url_port(s@) == Some(80u16),
        r is Some && url_explicit_port(s@) is None && url_scheme(s@) == https_scheme()
            ==> url_port(s@) == Some(443u16),
{
    url::Url::parse(s).ok().map(
        |u| (
            u.host_str().map(|h| h.as_bytes().to_vec()),
            u.port_or_known_default(),
            u.scheme().as_bytes().to_vec(),
            u.port(),
        ),
    )
}

/// A colon stands at position `i` of `s`.
pub open spec fn colon_at(s: Seq<u8>, i: int) -> bool {
    0 <= i < s.len() && s[i] == COLON
}

/// `s` holds a colon.
pub open spec fn has_colon(s: Seq<u8>) -> bool {
    exists|i: int| colon_at(s, i)
}

/// `i` is the position of the first colon of `s`.
pub open spec fn is_first_colon(s: Seq<u8>, i: int) -> bool {
    colon_at(s, i) && (forall|j: int| 0 <= j < i ==> s[j] != COLON)
}

/// The position of the first colon of `s`; meaningful only when
/// `has_colon(s)` holds.
pub open spec fn first_colon(s: Seq<u8>) -> int {
    choose|i: int| is_first_colon(s, i)
}

/// `c` is an ASCII decimal digit.
pub open spec fn is_digit(c: u8) -> bool {
    48 <= c <= 57
}

/// Every byte of `s` is a decimal digit.
pub open spec fn all_digits(s: Seq<u8>) -> bool {
    forall|i: int| 0 <= i < s.len() ==> is_digit(s[i])
}

/// The number the decimal digits of `s` spell.
pub open spec fn digits_value(s: Seq<u8>) -> int
    decreases s.len(),
{
    if s.len() == 0 {
        0
    } else {
        digits_value(s.drop_last()) * 10 + s.last() - 48
    }
}

/// What resolving a CONNECT target yields: the part before the first
/// colon is the host, the part after it the decimal port, both required.
pub open spec fn spec_resolve_connect(target: Seq<u8>) -> Result<(Seq<u8>, u16), Failure> {
    if !has_colon(target) {
        Err(Failure::MissingConnectPort)
    } else {
        let c = first_colon(target);
        if c == 0 {
            Err(Failure::MissingConnectHost)
        } else if c + 1 == target.len() {
            Err(Failure::MissingConnectPort)
        } else {
            let digits = target.subrange(c + 1, target.len() as int);
            if !all_digits(digits) || !(1 <= digits_value(digits) <= 65535) {
                Err(Failure::InvalidConnectPort)
            } else {
                Ok((target.subrange(0, c), digits_value(digits) as u16))
            }
        }
    }
}

/// What resolving an absolute-URL target yields: the host and port the
/// URL library reports, required present, non-empty and non-zero.
pub open spec fn spec_resolve_url(target: Seq<u8>) -> Result<(Seq<u8>, u16), Failure> {
    let s = decoded_text(target);
    if !url_accepts(s) {
        Err(Failure::MalformedUrl)
    } else {
        match url_host(s) {
            None => Err(Failure::MissingHost),
            Some(h) => if h.len() == 0 {
                Err(Failure::MissingHost)
            } else {
                match url_port(s) {
                    None => Err(Failure::MissingPort),
                    Some(p) => if p == 0 {
                        Err(Failure::MissingPort)
                    } else {
                        Ok((h, p))
                    },
                }
            },
        }
    }
}

/// What target resolution yields for a parsed request: the CONNECT rule
/// for CONNECT, the absolute-URL rule for every other method.
pub open spec fn spec_resolve(method: Method, target: Seq<u8>) -> Result<(Seq<u8>, u16), Failure> {
    if method is Connect {
        spec_resolve_connect(target)
    } else {
        spec_resolve_url(target)
    }
}

/// A resolved port agrees with the URL's own port information: it is the
/// explicit port when the URL names one, and the scheme's known default
/// otherwise — 80 for `http`, 443 for `https`.
pub open spec fn explicit_or_default_port(s: Seq<char>, port: u16) -> bool {
    &&& url_explicit_port(s) is Some ==> Some(port) == url_explicit_port(s)
    &&& url_explicit_port(s) is None && url_scheme(s) == http_scheme() ==> port == 80
    &&& url_explicit_port(s) is None && url_scheme(s) == https_scheme() ==> port == 443
}

/// First colon positions are unique.
proof fn lemma_first_colon_unique(s: Seq<u8>, i: int, j: int)
    requires
        is_first_colon(s, i),
        is_first_colon(s, j),
    ensures
        i == j,
{
    if i < j {
        assert(s[i] != COLON);
    } else if j < i {
        assert(s[j] != COLON);
    }
}

/// Find the first colon of `s`, if any.
fn find_first_colon(s: &[u8]) -> (r: Option<usize>)
    ensures
        match r {
            Some(i) => is_first_colon(s@, i as int),
            None => !has_colon(s@),
        },
{
    let n = s.len();
    let mut i: usize = 0;
    while i < n
        invariant
            0 <= i <= n == s@.len(),
            forall|j: int| 0 <= j < i ==> s@[j] != COLON,
        decreases n - i,
    {
        if s[i] == COLON {
            return Some(i);
        }
        i += 1;
    }
    None
}

/// Extending a digit string multiplies its value by ten and adds the new
/// digit.
proof fn lemma_digits_value_step(s: Seq<u8>, i: int)
    requires
        0 <= i < s.len(),
    ensures
        digits_value(s.subrange(0, i + 1)) == digits_value(s.subrange(0, i)) * 10 + s[i] - 48,
{
    let t = s.subrange(0, i + 1);
    assert(t.drop_last() =~= s.subrange(0, i));
}

/// Once a prefix of a byte string spells a number above the port range,
/// the whole string does.
proof fn lemma_digits_value_stays_large(s: Seq<u8>, i: int)
    requires
        0 <= i <= s.len(),
        digits_value(s.subrange(0, i)) > 65535,
    ensures
        digits_value(s) > 65535,
    decreases s.len() - i,
{
    if i == s.len() {
        assert(s.subrange(0, i) =~= s);
    } else {
        lemma_digits_value_step(s, i);
        lemma_digits_value_stays_large(s, i + 1);
    }
}

/// Parse a decimal port: every byte a digit, value in 1..=65535.
fn parse_port(s: &[u8]) -> (r: Option<u16>)
    requires
        s@.len() > 0,
    ensures
        match r {
            Some(p) => all_digits(s@) && 1 <= digits_value(s@) <= 65535 && p == digits_value(s@),
            None => !all_digits(s@) || !(1 <= digits_value(s@) <= 65535),
        },
{
    let n = s.len();
    let mut acc: u32 = 0;
    let mut i: usize = 0;
    while i < n
        invariant
            0 <= i <= n == s@.len(),
            acc <= 65535,
            all_digits(s@.subrange(0, i as int)),
            acc == digits_value(s@.subrange(0, i as int)),
        decreases n - i,
    {
        let c = s[i];
        if c < 48 || c > 57 {
            return None;
        }
        proof {
            lemma_digits_value_step(s@, i as int);
            assert(all_digits(s@.subrange(0, i + 1)));
        }
        acc = acc * 10 + (c - 48) as u32;
        if acc > 65535 {
            proof {
                lemma_digits_value_stays_large(s@, i + 1);
            }
            return None;
        }
        i += 1;
    }
    proof {
        assert(s@.subrange(0, n as int) =~= s@);
    }
    if acc == 0 {
        return None;
    }
    Some(acc as u16)
}

/// Turn a parsed request into the origin to dial, or say why it has
/// none. Pure: the request is only read, and the result is a function of
/// the method and the target bytes (it equals `spec_resolve` of them).
pub fn resolve_target(req: &ParsedRequest) -> (r: Result<Target, Failure>)
    ensures
        match r {
            Ok(t) => spec_resolve(req.method, req.target@) == Ok::<_, Failure>((t.host@, t.port))
                && t.wf(),
            Err(f) => spec_resolve(req.method, req.target@) == Err::<(Seq<u8>, u16), _>(f)
                && f.is_parse_failure(),
        },
        r is Ok && !(req.method is Connect) ==> explicit_or_default_port(
            decoded_text(req.target@),
            r->Ok_0.port,
        ),
{
    match req.method {
        Method::Connect => resolve_connect(&req.target),
        _ => resolve_url(&req.target),
    }
}

/// Resolve a CONNECT target of the form `host:port`.
fn resolve_connect(target: &Vec<u8>) -> (r: Result<Target, Failure>)
    ensures
        match r {
            Ok(t) => spec_resolve_connect(target@) == Ok::<_, Failure>((t.host@, t.port)) && t.wf(),
            Err(f) => spec_resolve_connect(target@) == Err::<(Seq<u8>, u16), _>(f),
        },
{
    let c = match find_first_colon(target.as_slice()) {
        Some(c) => c,
        None => {
            return Err(Failure::MissingConnectPort);
        },
    };
    let n = target.len();
    proof {
        lemma_first_colon_unique(target@, c as int, first_colon(target@));
        assert(c < n);
    }
    if c == 0 {
        return Err(Failure::MissingConnectHost);
    }
    if c + 1 == n {
        return Err(Failure::MissingConnectPort);
    }
    let digits = slice_subrange(target.as_slice(), c + 1, n);
    let port = match parse_port(digits) {
        Some(p) => p,
        None => {
            return Err(Failure::InvalidConnectPort);
        },
    };
    let host = crate::parse::copy_range(target.as_slice(), 0, c);
    Ok(Target { host, port })
}

/// Resolve an absolute-URL target through the URL library.
fn resolve_url(target: &Vec<u8>) -> (r: Result<Target, Failure>)
    ensures
        match r {
            Ok(t) => spec_resolve_url(target@) == Ok::<_, Failure>((t.host@, t.port)) && t.wf(),
            Err(f) => spec_resolve_url(target@) == Err::<(Seq<u8>, u16), _>(f),
        },
        r is Ok ==> explicit_or_default_port(decoded_text(target@), r->Ok_0.port),
{
    let text = decode_lossy(target.as_slice());
    let (host_opt, port_opt, _scheme, _explicit) = match parse_absolute_url(text.as_str()) {
        Some(parts) => parts,
        None => {
            return Err(Failure::MalformedUrl);
        },
    };
    let host = match host_opt {
        Some(h) => h,
        None => {
            return Err(Failure::MissingHost);
        },
    };
    if host.len() == 0 {
        return Err(Failure::MissingHost);
    }
    let port = match port_opt {
        Some(p) => p,
        None => {
            return Err(Failure::MissingPort);
        },
    };
    if port == 0 {
        return Err(Failure::MissingPort);
    }
    Ok(Target { host, port })
}

/// Law: a CONNECT target assembled from a non-empty colon-free host and
/// the decimal digits of a usable port resolves to exactly that host and
/// that port, unchanged.
pub proof fn lemma_connect_target_round_trip(host: Seq<u8>, digits: Seq<u8>)
    requires
        host.len() > 0,
        forall|i: int| 0 <= i < host.len() ==> host[i] != COLON,
        digits.len() > 0,
        all_digits(digits),
        1 <= digits_value(digits) <= 65535,
    ensures
        spec_resolve_connect(host + seq![COLON] + digits) == Ok::<_, Failure>(
            (host, digits_value(digits) as u16),
        ),
{
    let t = host + seq![COLON] + digits;
    let c = host.len() as int;
    assert(t[c] == COLON);
    assert forall|j: int| 0 <= j < c implies t[j] != COLON by {
        assert(t[j] == host[j]);
    }
    assert(is_first_colon(t, c));
    lemma_first_colon_unique(t, c, first_colon(t));
    assert forall|i: int| 0 <= i < t.len() && t[i] == COLON implies i == c by {
        if i < c {
            assert(t[i] == host[i]);
        } else if i > c {
            assert(t[i] == digits[i - c - 1]);
            assert(is_digit(digits[i - c - 1]));
        }
    }
    assert(t.subrange(0, c) =~= host);
    assert(t.subrange(c + 1, t.len() as int) =~= digits);
}

/// Law: a CONNECT target with no colon, an empty host part, or an empty
/// port part does not resolve.
pub proof fn lemma_connect_target_rejected(target: Seq<u8>)
    requires
        ({
            ||| !has_colon(target)
            ||| (target.len() > 0 && target[0] == COLON)
            ||| (exists|i: int| is_first_colon(target, i) && i + 1 == target.len())
        }),
    ensures
        spec_resolve_connect(target) is Err,
{
    if !has_colon(target) {
    } else if target.len() > 0 && target[0] == COLON {
        assert(is_first_colon(target, 0));
        lemma_first_colon_unique(target, 0, first_colon(target));
    } else {
        let i = choose|i: int| is_first_colon(target, i) && i + 1 == target.len();
        lemma_first_colon_unique(target, i, first_colon(target));
    }
}

/// Law: the resolver never invents or alters a port: whenever an
/// absolute-URL target resolves, the port is exactly the one the URL
/// library reports for the target text, which is the URL's explicit port
/// or, absent one, the scheme's known default.
pub proof fn lemma_url_port_propagated(method: Method, target: Seq<u8>)
    requires
        !(method is Connect),
        spec_resolve(method, target) is Ok,
    ensures
        ({
            let hp = spec_resolve(method, target)->Ok_0;
            Some(hp.1) == url_port(decoded_text(target)) && Some(hp.0) == url_host(
                decoded_text(target),
            )
        }),
{
}

} // verus!
