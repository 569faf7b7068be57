//! The policy: what a server allows of requests from other origins.

use crate::header_name::HeaderSet;
use crate::method::{Method, MethodSet};
use crate::pattern::SerdeRegexSet;
use vstd::prelude::*;

verus! {

/// Which origins may read a response.
#[derive(Debug, Clone)]
pub enum AllowedOrigins {
    /// Every origin: the answer is `*`, whoever asks.
    Any,
    /// Every origin: the answer repeats the origin that asks.
    Mirror,
    /// The origins that a pattern of the set matches.
    List(SerdeRegexSet),
}

/// Which request headers a preflight is told it may send.
#[derive(Debug, Clone, PartialEq, Eq)]
pub enum AllowedHeaders {
    /// All of them: the answer is `*`.
    Any,
    /// Those that the preflight asks for.
    Mirror,
    /// The headers of the set, whatever the preflight asks for.
    List(HeaderSet),
}

/// Which methods a preflight is told it may use.
#[derive(Debug, Clone, PartialEq, Eq)]
pub enum AllowedMethods {
    /// The one that the preflight asks for.
    Mirror,
    /// The methods of the set, whatever the preflight asks for.
    List(MethodSet),
}

/// Which response headers a script may read.
#[derive(Debug, Clone, PartialEq, Eq)]
pub enum ExposeHeaders {
    /// All of them: the answer is `*`.
    Any,
    /// The headers of the set.
    List(HeaderSet),
}

/// The request headers that a response is always said to vary on.
#[derive(Debug, Clone, PartialEq, Eq)]
pub struct Vary(pub HeaderSet);

/// A policy. It is built once and read from then on.
///
/// `allow_credentials` together with an `Any` rule asks for an answer that
/// browsers refuse; the policy holds it all the same, and resolution yields
/// what the rules say.
#[derive(Debug, Clone)]
pub struct Config {
    /// Whether requests may carry credentials.
    pub allow_credentials: bool,
    pub allowed_headers: AllowedHeaders,
    pub allowed_methods: AllowedMethods,
    pub allowed_origins: AllowedOrigins,
    /// Whether requests from a public page to a private network are let in.
    pub allow_private_network: bool,
    /// For how many seconds a browser may keep the answer to a preflight.
    pub max_age: Option<u64>,
    pub expose_headers: ExposeHeaders,
    pub vary: Vary,
}

/// An `AllowedOrigins` as a mathematical value: of a list, its pattern
/// sources.
pub enum OriginRule {
    Any,
    Mirror,
    List(Seq<Seq<char>>),
}

/// An `AllowedHeaders` as a mathematical value: of a list, its names.
pub enum HeaderRule {
    Any,
    Mirror,
    List(Seq<Seq<char>>),
}

/// An `AllowedMethods` as a mathematical value.
pub enum MethodRule {
    Mirror,
    List(Seq<Method>),
}

/// An `ExposeHeaders` as a mathematical value: of a list, its names.
pub enum ExposeRule {
    Any,
    List(Seq<Seq<char>>),
}

/// A `Config` as a mathematical value.
pub struct Policy {
    pub allow_credentials: bool,
    pub allowed_headers: HeaderRule,
    pub allowed_methods: MethodRule,
    pub allowed_origins: OriginRule,
    pub allow_private_network: bool,
    pub max_age: Option<u64>,
    pub expose_headers: ExposeRule,
    pub vary: Seq<Seq<char>>,
}

impl View for AllowedOrigins {
    type V = OriginRule;

    open spec fn view(&self) -> OriginRule {
        match self {
            AllowedOrigins::Any => OriginRule::Any,
            AllowedOrigins::Mirror => OriginRule::Mirror,
            AllowedOrigins::List(patterns) => OriginRule::List(patterns@),
        }
    }
}

impl View for AllowedHeaders {
    type V = HeaderRule;

    open spec fn view(&self) -> HeaderRule {
        match self {
            AllowedHeaders::Any => HeaderRule::Any,
            AllowedHeaders::Mirror => HeaderRule::Mirror,
            AllowedHeaders::List(names) => HeaderRule::List(names@),
        }
    }
}

impl View for AllowedMethods {
    type V = MethodRule;

    open spec fn view(&self) -> MethodRule {
        match self {
            AllowedMethods::Mirror => MethodRule::Mirror,
            AllowedMethods::List(methods) => MethodRule::List(methods@),
        }
    }
}

impl View for ExposeHeaders {
    type V = ExposeRule;

    open spec fn view(&self) -> ExposeRule {
        match self {
            ExposeHeaders::Any => ExposeRule::Any,
            ExposeHeaders::List(names) => ExposeRule::List(names@),
        }
    }
}

impl Default for Vary {
    /// No names.
    fn default() -> (vary: Vary)
        ensures
            vary@ == Seq::<Seq<char>>::empty(),
            vary.0.wf(),
    {
        Vary(HeaderSet::new())
    }
}

impl View for Vary {
    type V = Seq<Seq<char>>;

    open spec fn view(&self) -> Seq<Seq<char>> {
        self.0@
    }
}

impl View for Config {
    type V = Policy;

    open spec fn view(&self) -> Policy {
        Policy {
            allow_credentials: self.allow_credentials,
            allowed_headers: self.allowed_headers@,
            allowed_methods: self.allowed_methods@,
            allowed_origins: self.allowed_origins@,
            allow_private_network: self.allow_private_network,
            max_age: self.max_age,
            expose_headers: self.expose_headers@,
            vary: self.vary@,
        }
    }
}

impl AllowedOrigins {
    /// Whether the pattern set inside, if there is one, is sound.
    pub open spec fn wf(&self) -> bool {
        match self {
            AllowedOrigins::List(patterns) => patterns.wf(),
            _ => true,
        }
    }
}

impl AllowedHeaders {
    /// Whether the set inside, if there is one, is sound.
    pub open spec fn wf(&self) -> bool {
        match self {
            AllowedHeaders::List(names) => names.wf(),
            _ => true,
        }
    }
}

impl AllowedMethods {
    /// Whether the set inside, if there is one, is sound.
    pub open spec fn wf(&self) -> bool {
        match self {
            AllowedMethods::List(methods) => methods.wf(),
            _ => true,
        }
    }
}

impl ExposeHeaders {
    /// Whether the set inside, if there is one, is sound.
    pub open spec fn wf(&self) -> bool {
        match self {
            ExposeHeaders::List(names) => names.wf(),
            _ => true,
        }
    }
}

impl Policy {
    /// Whether the policy allows credentials and yet answers some question
    /// with `*`. Browsers refuse such an answer.
    pub open spec fn credentials_meet_wildcard(self) -> bool {
        self.allow_credentials && (self.allowed_origins is Any || self.allowed_headers is Any
            || self.expose_headers is Any)
    }
}

impl Config {
    /// Whether the policy allows credentials and yet answers some question
    /// with `*`. Such a policy can be built and resolved like any other, but
    /// browsers refuse its answers: a caller that wants to refuse it instead
    /// asks here.
    pub fn credentials_meet_wildcard(&self) -> (mixed: bool)
        ensures
            mixed == self@.credentials_meet_wildcard(),
    {
        self.allow_credentials && (matches!(self.allowed_origins, AllowedOrigins::Any) || matches!(
            self.allowed_headers,
            AllowedHeaders::Any
        ) || matches!(self.expose_headers, ExposeHeaders::Any))
    }

    /// Whether every set inside the policy is sound. This holds of every
    /// policy that a program can hold.
    pub open spec fn wf(&self) -> bool {
        &&& self.allowed_headers.wf()
        &&& self.allowed_methods.wf()
        &&& self.allowed_origins.wf()
        &&& self.expose_headers.wf()
        &&& self.vary.0.wf()
    }
}

} // verus!
