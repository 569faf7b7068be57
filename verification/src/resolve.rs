//! Resolution: from a policy and the facts of a request to the response
//! headers that the policy yields for it.
//!
//! Every function here is a function of the policy and of the request facts
//! and of nothing else: the same policy and the same facts give the same
//! headers, byte for byte.

use crate::header_name::{HeaderName, HeaderSet};
use crate::max_age::{decimal, decimal_text};
use crate::method::tokens_of;
use crate::pattern::patterns_match;
use crate::policy::{
    AllowedHeaders, AllowedMethods, AllowedOrigins, Config, ExposeHeaders, ExposeRule, HeaderRule,
    MethodRule, OriginRule, Policy,
};
use crate::text::{encoded, joined, texts};
use vstd::prelude::*;
use vstd::utf8::encode_utf8;

verus! {

/// The response headers that resolution can yield.
#[derive(Debug, Clone, Copy, PartialEq, Eq, Hash, Structural)]
pub enum ResponseHeader {
    AllowOrigin,
    AllowCredentials,
    AllowMethods,
    AllowHeaders,
    MaxAge,
    AllowPrivateNetwork,
    ExposeHeaders,
    Vary,
}

impl ResponseHeader {
    /// The name of the header, in lower case.
    pub open spec fn name_text(self) -> Seq<char> {
        match self {
            ResponseHeader::AllowOrigin => "access-control-allow-origin"@,
            ResponseHeader::AllowCredentials => "access-control-allow-credentials"@,
            ResponseHeader::AllowMethods => "access-control-allow-methods"@,
            ResponseHeader::AllowHeaders => "access-control-allow-headers"@,
            ResponseHeader::MaxAge => "access-control-max-age"@,
            ResponseHeader::AllowPrivateNetwork => "access-control-allow-private-network"@,
            ResponseHeader::ExposeHeaders => "access-control-expose-headers"@,
            ResponseHeader::Vary => "vary"@,
        }
    }

    /// The name of the header, in lower case.
    pub fn name(&self) -> (name: &'static str)
        ensures
            name@ == self.name_text(),
    {
        match self {
            ResponseHeader::AllowOrigin => "access-control-allow-origin",
            ResponseHeader::AllowCredentials => "access-control-allow-credentials",
            ResponseHeader::AllowMethods => "access-control-allow-methods",
            ResponseHeader::AllowHeaders => "access-control-allow-headers",
            ResponseHeader::MaxAge => "access-control-max-age",
            ResponseHeader::AllowPrivateNetwork => "access-control-allow-private-network",
            ResponseHeader::ExposeHeaders => "access-control-expose-headers",
            ResponseHeader::Vary => "vary",
        }
    }
}

/// What a preflight asks: the raw values of its request headers.
#[derive(Debug, Clone, PartialEq, Eq)]
pub struct Preflight {
    /// The method that the request to come will use.
    pub requested_method: Option<Vec<u8>>,
    /// The headers that the request to come will carry.
    pub requested_headers: Option<Vec<u8>>,
    /// Whether the preflight asks for access to a private network.
    pub private_network: bool,
}

/// The facts of a request that resolution reads.
#[derive(Debug, Clone, PartialEq, Eq)]
pub struct Request {
    /// The raw value of the `Origin` header. It need not be text.
    pub origin: Option<Vec<u8>>,
    /// What the request asks, where it is a preflight.
    pub preflight: Option<Preflight>,
}

/// A `Preflight` as a mathematical value.
pub struct PreflightFacts {
    pub requested_method: Option<Seq<u8>>,
    pub requested_headers: Option<Seq<u8>>,
    pub private_network: bool,
}

/// A `Request` as a mathematical value.
pub struct RequestFacts {
    pub origin: Option<Seq<u8>>,
    pub preflight: Option<PreflightFacts>,
}

/// An optional byte string as a mathematical value.
pub open spec fn bytes_of(raw: Option<Vec<u8>>) -> Option<Seq<u8>> {
    match raw {
        Some(bytes) => Some(bytes@),
        None => None,
    }
}

impl View for Preflight {
    type V = PreflightFacts;

    open spec fn view(&self) -> PreflightFacts {
        PreflightFacts {
            requested_method: bytes_of(self.requested_method),
            requested_headers: bytes_of(self.requested_headers),
            private_network: self.private_network,
        }
    }
}

impl View for Request {
    type V = RequestFacts;

    open spec fn view(&self) -> RequestFacts {
        RequestFacts {
            origin: bytes_of(self.origin),
            preflight: match self.preflight {
                Some(preflight) => Some(preflight@),
                None => None,
            },
        }
    }
}

/// A response header and its value.
#[derive(Debug, Clone, PartialEq, Eq)]
pub struct HeaderLine {
    pub name: ResponseHeader,
    pub value: Vec<u8>,
}

impl View for HeaderLine {
    type V = (ResponseHeader, Seq<u8>);

    open spec fn view(&self) -> (ResponseHeader, Seq<u8>) {
        (self.name, self.value@)
    }
}

/// A list of header lines as a mathematical value.
pub open spec fn lines_of(lines: Seq<HeaderLine>) -> Seq<(ResponseHeader, Seq<u8>)> {
    lines.map_values(|line: HeaderLine| line@)
}

/// The value `*`.
pub open spec fn wildcard() -> Seq<u8> {
    seq![42u8]
}

/// The value `true`.
pub open spec fn truth() -> Seq<u8> {
    seq![116u8, 114u8, 117u8, 101u8]
}

/// What stands between the items of a list: a comma.
pub open spec fn comma() -> Seq<u8> {
    seq![44u8]
}

/// What stands between the names of `Vary`: a comma and a space.
pub open spec fn comma_space() -> Seq<u8> {
    seq![44u8, 32u8]
}

/// Whether a raw header value can be read as text: whether it is made of
/// printable ASCII characters, spaces and tabs.
pub open spec fn is_header_text(raw: Seq<u8>) -> bool {
    forall|i: int| 0 <= i < raw.len() ==> (#[trigger] raw[i] == 9 || 32 <= raw[i] <= 126)
}

/// A raw header value as text, where it can be read so.
pub open spec fn header_text(raw: Seq<u8>) -> Option<Seq<char>> {
    if is_header_text(raw) {
        Some(raw.map_values(|byte: u8| byte as char))
    } else {
        None
    }
}

/// The value of the allow-origin header: `None` where the origin is denied.
///
/// `Any` answers `*` to everyone. `Mirror` repeats the origin that asks.
/// A list repeats the origin where it reads as text and the patterns match
/// that text, and denies it otherwise; a request without an origin has
/// nothing to repeat.
pub open spec fn allowed_origin(rule: OriginRule, origin: Option<Seq<u8>>) -> Option<Seq<u8>> {
    match rule {
        OriginRule::Any => Some(wildcard()),
        OriginRule::Mirror => origin,
        OriginRule::List(patterns) => match origin {
            Some(raw) => if header_text(raw) is Some && patterns_match(
                patterns,
                header_text(raw).unwrap(),
            ) {
                Some(raw)
            } else {
                None
            },
            None => None,
        },
    }
}

/// What a preflight asks for, if it asks for anything: an empty value asks
/// for nothing.
pub open spec fn asked(requested: Option<Seq<u8>>) -> Option<Seq<u8>> {
    match requested {
        Some(raw) => if raw.len() > 0 {
            Some(raw)
        } else {
            None
        },
        None => None,
    }
}

/// The value that lists the given texts, with `sep` between them; `None`
/// for no texts.
pub open spec fn listed(items: Seq<Seq<char>>, sep: Seq<u8>) -> Option<Seq<u8>> {
    if items.len() == 0 {
        None
    } else {
        Some(joined(encoded(items), sep))
    }
}

/// The value of the allow-headers header, if there is to be one.
pub open spec fn allowed_headers(rule: HeaderRule, requested: Option<Seq<u8>>) -> Option<Seq<u8>> {
    match rule {
        HeaderRule::Any => Some(wildcard()),
        HeaderRule::Mirror => asked(requested),
        HeaderRule::List(names) => listed(names, comma()),
    }
}

/// The value of the allow-methods header, if there is to be one.
pub open spec fn allowed_methods(rule: MethodRule, requested: Option<Seq<u8>>) -> Option<Seq<u8>> {
    match rule {
        MethodRule::Mirror => asked(requested),
        MethodRule::List(methods) => listed(tokens_of(methods), comma()),
    }
}

/// The value of the expose-headers header, if there is to be one.
pub open spec fn exposed_headers(rule: ExposeRule) -> Option<Seq<u8>> {
    match rule {
        ExposeRule::Any => Some(wildcard()),
        ExposeRule::List(names) => listed(names, comma()),
    }
}

/// The names that the response varies on: those of the policy, and after
/// them `origin` wherever the answer depends on who asks, unless the policy
/// names it already.
pub open spec fn vary_names(policy: Policy) -> Seq<Seq<char>> {
    if policy.allowed_origins is Any || policy.vary.contains("origin"@) {
        policy.vary
    } else {
        policy.vary.push("origin"@)
    }
}

/// The value of the vary header, if there is to be one.
pub open spec fn vary_value(policy: Policy) -> Option<Seq<u8>> {
    listed(vary_names(policy), comma_space())
}

/// The value of the max-age header, if there is to be one: the seconds as a
/// decimal numeral.
pub open spec fn max_age_value(max_age: Option<u64>) -> Option<Seq<u8>> {
    match max_age {
        Some(seconds) => Some(encode_utf8(decimal_text(seconds as nat))),
        None => None,
    }
}

/// The value `true` where the flag is set.
pub open spec fn flagged(flag: bool) -> Option<Seq<u8>> {
    if flag {
        Some(truth())
    } else {
        None
    }
}

/// The line of a header, if the header has a value.
pub open spec fn line(name: ResponseHeader, value: Option<Seq<u8>>) -> Seq<
    (ResponseHeader, Seq<u8>),
> {
    match value {
        Some(bytes) => seq![(name, bytes)],
        None => Seq::empty(),
    }
}

/// The response headers of a policy for a request.
///
/// Where the origin is denied there is none but `Vary`: the denial depends
/// on who asks as much as the permission does. Where it is allowed, the
/// allow-origin header comes first and the credentials header after it;
/// a preflight is then told the methods, the headers, the lifetime of the
/// answer and whether the private network is open to it, any other request
/// which response headers it may read; `Vary` comes last.
pub open spec fn resolved(policy: Policy, request: RequestFacts) -> Seq<(ResponseHeader, Seq<u8>)> {
    let origin = allowed_origin(policy.allowed_origins, request.origin);
    let vary = line(ResponseHeader::Vary, vary_value(policy));
    if origin is None {
        vary
    } else {
        let shared = line(ResponseHeader::AllowOrigin, origin) + line(
            ResponseHeader::AllowCredentials,
            flagged(policy.allow_credentials),
        );
        match request.preflight {
            Some(preflight) => shared + line(
                ResponseHeader::AllowMethods,
                allowed_methods(policy.allowed_methods, preflight.requested_method),
            ) + line(
                ResponseHeader::AllowHeaders,
                allowed_headers(policy.allowed_headers, preflight.requested_headers),
            ) + line(ResponseHeader::MaxAge, max_age_value(policy.max_age)) + line(
                ResponseHeader::AllowPrivateNetwork,
                flagged(policy.allow_private_network && preflight.private_network),
            ) + vary,
            None => shared + line(
                ResponseHeader::ExposeHeaders,
                exposed_headers(policy.expose_headers),
            ) + vary,
        }
    }
}

/// Reads a raw header value as text, by `http::HeaderValue::from_bytes` and
/// `http::HeaderValue::to_str`. Trusted: the two accept exactly the values
/// made of printable ASCII characters, spaces and tabs, and the text holds
/// one character for each byte.
#[verifier::external_body]
fn read_text(raw: &[u8]) -> (text: Option<String>)
    ensures
        match text {
            Some(text) => header_text(raw@) == Some(text@),
            None => header_text(raw@) is None,
        },
{
    let value = http::HeaderValue::from_bytes(raw).ok();
    value.and_then(|value| value.to_str().ok().map(|text| text.to_string()))
}

/// A copy of a byte string.
fn copied(bytes: &Vec<u8>) -> (copy: Vec<u8>)
    ensures
        copy@ == bytes@,
{
    vstd::slice::slice_to_vec(bytes.as_slice())
}

/// What a preflight asks for, if it asks for anything.
fn asked_value(requested: &Option<Vec<u8>>) -> (value: Option<Vec<u8>>)
    ensures
        bytes_of(value) == asked(bytes_of(*requested)),
{
    match requested {
        Some(raw) => if raw.len() > 0 {
            Some(copied(raw))
        } else {
            None
        },
        None => None,
    }
}

/// Appends the bytes to the value.
fn append(value: &mut Vec<u8>, bytes: &[u8])
    ensures
        final(value)@ == old(value)@ + bytes@,
{
    let ghost before = value@;
    let mut i: usize = 0;
    while i < bytes.len()
        invariant
            i <= bytes.len(),
            value@ == before + bytes@.take(i as int),
        decreases bytes.len() - i,
    {
        value.push(bytes[i]);
        assert(bytes@.take(i + 1) =~= bytes@.take(i as int).push(bytes@[i as int]));
        assert(value@ =~= before + bytes@.take(i + 1));
        i += 1;
    }
    assert(bytes@.take(i as int) =~= bytes@);
}

/// The value that lists the given texts.
fn listed_value(items: &Vec<String>, sep: &[u8]) -> (value: Option<Vec<u8>>)
    ensures
        bytes_of(value) == listed(texts(items@), sep@),
{
    if items.len() == 0 {
        return None;
    }
    let ghost parts = encoded(texts(items@));
    let mut value: Vec<u8> = Vec::new();
    append(&mut value, items[0].as_str().as_bytes());
    assert(parts.take(1).len() == 1);
    assert(value@ =~= parts.take(1)[0]);
    let mut i: usize = 1;
    while i < items.len()
        invariant
            1 <= i <= items.len(),
            parts == encoded(texts(items@)),
            value@ == joined(parts.take(i as int), sep@),
        decreases items.len() - i,
    {
        append(&mut value, sep);
        append(&mut value, items[i].as_str().as_bytes());
        proof {
            let next = parts.take(i + 1);
            assert(next.drop_last() =~= parts.take(i as int));
            assert(next.last() == encode_utf8(items@[i as int]@));
        }
        i += 1;
    }
    assert(parts.take(i as int) =~= parts);
    Some(value)
}

/// The value `true` where the flag is set.
fn flagged_value(flag: bool) -> (value: Option<Vec<u8>>)
    ensures
        bytes_of(value) == flagged(flag),
{
    if flag {
        let value: Vec<u8> = vec![116u8, 114u8, 117u8, 101u8];
        assert(value@ =~= truth());
        Some(value)
    } else {
        None
    }
}

/// The value `*`.
fn wildcard_value() -> (value: Vec<u8>)
    ensures
        value@ == wildcard(),
{
    let value: Vec<u8> = vec![42u8];
    assert(value@ =~= wildcard());
    value
}

impl AllowedOrigins {
    /// The value of the allow-origin header for a request with the given
    /// origin; `None` where the origin is denied. An origin that is not
    /// text is denied by a list, and is no error.
    pub fn resolve(&self, origin: &Option<Vec<u8>>) -> (value: Option<Vec<u8>>)
        ensures
            bytes_of(value) == allowed_origin(self@, bytes_of(*origin)),
    {
        match self {
            AllowedOrigins::Any => Some(wildcard_value()),
            AllowedOrigins::Mirror => match origin {
                Some(raw) => Some(copied(raw)),
                None => None,
            },
            AllowedOrigins::List(patterns) => match origin {
                Some(raw) => match read_text(raw.as_slice()) {
                    Some(text) => if patterns.is_match(text.as_str()) {
                        Some(copied(raw))
                    } else {
                        None
                    },
                    None => None,
                },
                None => None,
            },
        }
    }
}

impl AllowedHeaders {
    /// The value of the allow-headers header for a preflight that asks for
    /// the given headers. A list is given whole, whatever is asked for.
    pub fn resolve(&self, requested: &Option<Vec<u8>>) -> (value: Option<Vec<u8>>)
        ensures
            bytes_of(value) == allowed_headers(self@, bytes_of(*requested)),
    {
        match self {
            AllowedHeaders::Any => Some(wildcard_value()),
            AllowedHeaders::Mirror => asked_value(requested),
            AllowedHeaders::List(names) => {
                let value = listed_value(&crate::serde_header_name::serialize(names), &[44u8]);
                assert([44u8]@ =~= comma());
                value
            },
        }
    }
}

impl AllowedMethods {
    /// The value of the allow-methods header for a preflight that asks for
    /// the given method. A list is given whole, whatever is asked for.
    pub fn resolve(&self, requested: &Option<Vec<u8>>) -> (value: Option<Vec<u8>>)
        ensures
            bytes_of(value) == allowed_methods(self@, bytes_of(*requested)),
    {
        match self {
            AllowedMethods::Mirror => asked_value(requested),
            AllowedMethods::List(methods) => {
                let value = listed_value(&crate::serde_method::serialize(methods), &[44u8]);
                assert([44u8]@ =~= comma());
                value
            },
        }
    }
}

impl ExposeHeaders {
    /// The value of the expose-headers header. It is the same for every
    /// request.
    pub fn resolve(&self) -> (value: Option<Vec<u8>>)
        ensures
            bytes_of(value) == exposed_headers(self@),
    {
        match self {
            ExposeHeaders::Any => Some(wildcard_value()),
            ExposeHeaders::List(names) => {
                let value = listed_value(&crate::serde_header_name::serialize(names), &[44u8]);
                assert([44u8]@ =~= comma());
                value
            },
        }
    }
}

/// Adds the line of a header, if the header has a value.
fn push_line(lines: &mut Vec<HeaderLine>, name: ResponseHeader, value: Option<Vec<u8>>)
    ensures
        lines_of(final(lines)@) == lines_of(old(lines)@) + line(name, bytes_of(value)),
{
    match value {
        Some(value) => {
            lines.push(HeaderLine { name, value });
            assert(lines_of(lines@) =~= lines_of(old(lines)@) + line(name, Some(value@)));
        },
        None => {
            assert(lines_of(lines@) =~= lines_of(old(lines)@) + line(name, None));
        },
    }
}

impl Config {
    /// The names that the response varies on.
    pub fn vary_names(&self) -> (names: HeaderSet)
        ensures
            names@ == vary_names(self@),
            names.wf(),
    {
        let mut names = self.vary.0.clone();
        match &self.allowed_origins {
            AllowedOrigins::Any => {},
            _ => {
                names.insert(HeaderName::origin());
            },
        }
        proof {
            use_type_invariant(&names);
        }
        names
    }

    /// The value of the vary header, if there is to be one.
    pub fn vary_value(&self) -> (value: Option<Vec<u8>>)
        ensures
            bytes_of(value) == vary_value(self@),
    {
        let value = listed_value(&crate::serde_header_name::serialize(&self.vary_names()), &[44u8, 32u8]);
        assert([44u8, 32u8]@ =~= comma_space());
        value
    }

    /// The value of the max-age header, if there is to be one.
    pub fn max_age_value(&self) -> (value: Option<Vec<u8>>)
        ensures
            bytes_of(value) == max_age_value(self@.max_age),
    {
        match self.max_age {
            Some(seconds) => Some(decimal(seconds).as_str().as_bytes_vec()),
            None => None,
        }
    }

    /// The response headers that the policy yields for a request.
    pub fn resolve(&self, request: &Request) -> (lines: Vec<HeaderLine>)
        ensures
            lines_of(lines@) == resolved(self@, request@),
    {
        let mut lines: Vec<HeaderLine> = Vec::new();
        assert(lines_of(lines@) =~= Seq::empty());
        let origin = self.allowed_origins.resolve(&request.origin);
        if origin.is_some() {
            push_line(&mut lines, ResponseHeader::AllowOrigin, origin);
            push_line(
                &mut lines,
                ResponseHeader::AllowCredentials,
                flagged_value(self.allow_credentials),
            );
            match &request.preflight {
                Some(preflight) => {
                    push_line(
                        &mut lines,
                        ResponseHeader::AllowMethods,
                        self.allowed_methods.resolve(&preflight.requested_method),
                    );
                    push_line(
                        &mut lines,
                        ResponseHeader::AllowHeaders,
                        self.allowed_headers.resolve(&preflight.requested_headers),
                    );
                    push_line(&mut lines, ResponseHeader::MaxAge, self.max_age_value());
                    push_line(
                        &mut lines,
                        ResponseHeader::AllowPrivateNetwork,
                        flagged_value(self.allow_private_network && preflight.private_network),
                    );
                },
                None => {
                    push_line(
                        &mut lines,
                        ResponseHeader::ExposeHeaders,
                        self.expose_headers.resolve(),
                    );
                },
            }
        }
        push_line(&mut lines, ResponseHeader::Vary, self.vary_value());
        assert(lines_of(lines@) =~= resolved(self@, request@));
        lines
    }
}

} // verus!
