//! What holds of every resolution, whatever the policy and the request.

use crate::policy::{Config, Policy};
use crate::resolve::{
    allowed_headers, allowed_methods, allowed_origin, comma_space, exposed_headers, flagged, line,
    max_age_value, resolved, truth, vary_names, vary_value, wildcard, Request, RequestFacts,
    ResponseHeader,
};
use crate::text::{encoded, joined};
use vstd::prelude::*;

verus! {

/// The value that a policy gives a response header for a request; `None`
/// where the header is not to be sent.
pub open spec fn header_of(policy: Policy, request: RequestFacts, name: ResponseHeader) -> Option<
    Seq<u8>,
> {
    let origin = allowed_origin(policy.allowed_origins, request.origin);
    match name {
        ResponseHeader::Vary => vary_value(policy),
        _ => if origin is None {
            None
        } else {
            match name {
                ResponseHeader::AllowOrigin => origin,
                ResponseHeader::AllowCredentials => flagged(policy.allow_credentials),
                ResponseHeader::ExposeHeaders => match request.preflight {
                    Some(_) => None,
                    None => exposed_headers(policy.expose_headers),
                },
                _ => match request.preflight {
                    None => None,
                    Some(preflight) => match name {
                        ResponseHeader::AllowMethods => allowed_methods(
                            policy.allowed_methods,
                            preflight.requested_method,
                        ),
                        ResponseHeader::AllowHeaders => allowed_headers(
                            policy.allowed_headers,
                            preflight.requested_headers,
                        ),
                        ResponseHeader::MaxAge => max_age_value(policy.max_age),
                        _ => flagged(policy.allow_private_network && preflight.private_network),
                    },
                },
            }
        },
    }
}

/// What a list of lines holds when another is put after it.
proof fn lemma_joined_lines(
    front: Seq<(ResponseHeader, Seq<u8>)>,
    back: Seq<(ResponseHeader, Seq<u8>)>,
    entry: (ResponseHeader, Seq<u8>),
)
    ensures
        (front + back).contains(entry) <==> front.contains(entry) || back.contains(entry),
{
    let both = front + back;
    if front.contains(entry) {
        let i = choose|i: int| 0 <= i < front.len() && front[i] == entry;
        assert(both[i] == entry);
    }
    if back.contains(entry) {
        let i = choose|i: int| 0 <= i < back.len() && back[i] == entry;
        assert(both[front.len() + i] == entry);
    }
    if both.contains(entry) {
        let i = choose|i: int| 0 <= i < both.len() && both[i] == entry;
        if i < front.len() {
            assert(front[i] == entry);
        } else {
            assert(back[i - front.len()] == entry);
        }
    }
}

/// What the line of one header holds.
proof fn lemma_one_line(
    name: ResponseHeader,
    value: Option<Seq<u8>>,
    entry: (ResponseHeader, Seq<u8>),
)
    ensures
        line(name, value).contains(entry) <==> value is Some && entry == (name, value.unwrap()),
{
    if value is Some {
        assert(line(name, value)[0] == (name, value.unwrap()));
    }
}

/// The resolved headers are the headers of `header_of`, each once: a line
/// stands among them exactly when it is the value of its header.
pub proof fn lemma_resolved_lines(
    policy: Policy,
    request: RequestFacts,
    name: ResponseHeader,
    value: Seq<u8>,
)
    ensures
        resolved(policy, request).contains((name, value)) <==> header_of(policy, request, name)
            == Some(value),
{
    let entry = (name, value);
    let origin = allowed_origin(policy.allowed_origins, request.origin);
    let vary = line(ResponseHeader::Vary, vary_value(policy));
    lemma_one_line(ResponseHeader::Vary, vary_value(policy), entry);
    if origin is Some {
        let a = line(ResponseHeader::AllowOrigin, origin);
        let b = line(ResponseHeader::AllowCredentials, flagged(policy.allow_credentials));
        lemma_one_line(ResponseHeader::AllowOrigin, origin, entry);
        lemma_one_line(ResponseHeader::AllowCredentials, flagged(policy.allow_credentials), entry);
        lemma_joined_lines(a, b, entry);
        match request.preflight {
            Some(preflight) => {
                let methods = allowed_methods(policy.allowed_methods, preflight.requested_method);
                let headers = allowed_headers(policy.allowed_headers, preflight.requested_headers);
                let age = max_age_value(policy.max_age);
                let network = flagged(policy.allow_private_network && preflight.private_network);
                let c = line(ResponseHeader::AllowMethods, methods);
                let d = line(ResponseHeader::AllowHeaders, headers);
                let e = line(ResponseHeader::MaxAge, age);
                let f = line(ResponseHeader::AllowPrivateNetwork, network);
                lemma_one_line(ResponseHeader::AllowMethods, methods, entry);
                lemma_one_line(ResponseHeader::AllowHeaders, headers, entry);
                lemma_one_line(ResponseHeader::MaxAge, age, entry);
                lemma_one_line(ResponseHeader::AllowPrivateNetwork, network, entry);
                lemma_joined_lines(a + b, c, entry);
                lemma_joined_lines(a + b + c, d, entry);
                lemma_joined_lines(a + b + c + d, e, entry);
                lemma_joined_lines(a + b + c + d + e, f, entry);
                lemma_joined_lines(a + b + c + d + e + f, vary, entry);
            },
            None => {
                let exposed = exposed_headers(policy.expose_headers);
                let c = line(ResponseHeader::ExposeHeaders, exposed);
                lemma_one_line(ResponseHeader::ExposeHeaders, exposed, entry);
                lemma_joined_lines(a + b, c, entry);
                lemma_joined_lines(a + b + c, vary, entry);
            },
        }
    }
}

/// Wherever the answer depends on the origin that asks, that is under every
/// origin rule but `Any`, `origin` is among the names that the response
/// varies on, and the response of every request carries a `Vary` header that
/// lists them. Under `Any`, with no vary names in the policy, no response
/// carries a `Vary` header.
pub proof fn lemma_vary_follows_origin_rule(policy: Policy, request: RequestFacts)
    ensures
        !(policy.allowed_origins is Any) ==> vary_names(policy).contains("origin"@) && resolved(
            policy,
            request,
        ).contains(
            (ResponseHeader::Vary, joined(encoded(vary_names(policy)), comma_space())),
        ),
        policy.allowed_origins is Any && policy.vary.len() == 0 ==> forall|value: Seq<u8>|
            !resolved(policy, request).contains((ResponseHeader::Vary, value)),
        forall|i: int|
            0 <= i < policy.vary.len() ==> vary_names(policy).contains(#[trigger] policy.vary[i]),
{
    let names = vary_names(policy);
    if !(policy.allowed_origins is Any) {
        if !policy.vary.contains("origin"@) {
            assert(names[policy.vary.len() as int] == "origin"@);
        }
        assert(names.len() > 0);
        lemma_resolved_lines(
            policy,
            request,
            ResponseHeader::Vary,
            joined(encoded(names), comma_space()),
        );
    } else if policy.vary.len() == 0 {
        assert forall|value: Seq<u8>| !resolved(policy, request).contains(
            (ResponseHeader::Vary, value),
        ) by {
            lemma_resolved_lines(policy, request, ResponseHeader::Vary, value);
        }
    }
    assert forall|i: int| 0 <= i < policy.vary.len() implies names.contains(
        #[trigger] policy.vary[i],
    ) by {
        assert(names[i] == policy.vary[i]);
    }
}

/// A policy that allows credentials says so with the value `true` to every
/// request whose origin it allows. A policy that does not sends no
/// credentials header at all; the header never has another value.
pub proof fn lemma_credentials_are_true_or_absent(
    policy: Policy,
    request: RequestFacts,
    value: Seq<u8>,
)
    ensures
        resolved(policy, request).contains((ResponseHeader::AllowCredentials, value)) <==> (
        policy.allow_credentials && allowed_origin(policy.allowed_origins, request.origin) is Some
            && value == truth()),
{
    lemma_resolved_lines(policy, request, ResponseHeader::AllowCredentials, value);
}

/// Under the `Any` rule for exposed headers, the header is `*` for every
/// request that gets one: for every request that is no preflight and whose
/// origin is allowed, whatever else it holds.
pub proof fn lemma_any_exposes_wildcard(policy: Policy, request: RequestFacts, value: Seq<u8>)
    requires
        policy.expose_headers is Any,
    ensures
        exposed_headers(policy.expose_headers) == Some(wildcard()),
        resolved(policy, request).contains((ResponseHeader::ExposeHeaders, value)) <==> (
        request.preflight is None && allowed_origin(policy.allowed_origins, request.origin)
            is Some && value == wildcard()),
{
    lemma_resolved_lines(policy, request, ResponseHeader::ExposeHeaders, value);
}

/// The `Mirror` rules repeat the request: the allow-origin header is the
/// origin that asks, and a preflight is told the method and the headers
/// that it asked for, byte for byte.
pub proof fn lemma_mirror_repeats_request(policy: Policy, request: RequestFacts)
    ensures
        policy.allowed_origins is Mirror ==> header_of(
            policy,
            request,
            ResponseHeader::AllowOrigin,
        ) == request.origin,
        policy.allowed_origins is Mirror && policy.allowed_headers is Mirror && request.origin
            is Some && request.preflight is Some
            && request.preflight.unwrap().requested_headers is Some
            && request.preflight.unwrap().requested_headers.unwrap().len() > 0 ==> header_of(
            policy,
            request,
            ResponseHeader::AllowHeaders,
        ) == request.preflight.unwrap().requested_headers,
        policy.allowed_origins is Mirror && policy.allowed_methods is Mirror && request.origin
            is Some && request.preflight is Some
            && request.preflight.unwrap().requested_method is Some
            && request.preflight.unwrap().requested_method.unwrap().len() > 0 ==> header_of(
            policy,
            request,
            ResponseHeader::AllowMethods,
        ) == request.preflight.unwrap().requested_method,
{
}

/// Resolution reads nothing but what the policy says and what the request
/// holds: two policies that say the same, resolved against two requests of
/// the same facts, yield the same headers, byte for byte and in the same
/// order.
pub proof fn lemma_resolution_is_a_function(a: Config, b: Config, x: Request, y: Request)
    requires
        a@ == b@,
        x@ == y@,
    ensures
        resolved(a@, x@) == resolved(b@, y@),
{
}

} // verus!
