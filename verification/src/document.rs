//! The policy as it stands in a configuration document, before anything in
//! it has been checked: tags and lists of strings.

use crate::error::{Fault, PolicyError};
use crate::header_name::{header_tokens_fault, is_header_token, lowered_all, lowered};
use crate::max_age::{
    format_max_age, lemma_written_form_reads_back, max_age_of, parse_max_age, seconds_text,
};
use crate::method::{
    lemma_token_round_trip, method_of, method_tokens_fault, methods_of, tokens_of, Method,
};
use crate::pattern::pattern_fault;
use crate::policy::{
    AllowedHeaders, AllowedMethods, AllowedOrigins, Config, ExposeHeaders, ExposeRule, HeaderRule,
    MethodRule, OriginRule, Policy, Vary,
};
use crate::text::{
    distinct, lemma_distinct_of_distinct, lemma_none_refused, same_text, texts,
};
use vstd::prelude::*;

verus! {

/// The origin rule of a document: a tag, or a list of pattern sources.
#[derive(Debug, Clone, PartialEq, Eq)]
pub enum OriginsDocument {
    Any,
    Mirror,
    List(Vec<String>),
}

/// The header rule of a document: a tag, or a list of header-name tokens.
#[derive(Debug, Clone, PartialEq, Eq)]
pub enum HeadersDocument {
    Any,
    Mirror,
    List(Vec<String>),
}

/// The method rule of a document: a tag, or a list of method tokens.
#[derive(Debug, Clone, PartialEq, Eq)]
pub enum MethodsDocument {
    Mirror,
    List(Vec<String>),
}

/// The expose-headers rule of a document: a tag, or a list of header-name
/// tokens.
#[derive(Debug, Clone, PartialEq, Eq)]
pub enum ExposeDocument {
    Any,
    List(Vec<String>),
}

/// A policy document. The optional fields may be absent.
#[derive(Debug, Clone, PartialEq, Eq)]
pub struct Document {
    pub allow_credentials: Option<bool>,
    pub allowed_headers: HeadersDocument,
    pub allowed_methods: MethodsDocument,
    pub allowed_origins: OriginsDocument,
    pub allow_private_network: Option<bool>,
    pub max_age: Option<String>,
    pub expose_headers: ExposeDocument,
    pub vary: Option<Vec<String>>,
}

/// The tag of the rule that allows everything.
pub open spec fn any_tag() -> Seq<char> {
    "any"@
}

/// The tag of the rule that repeats what the request asks for.
pub open spec fn mirror_tag() -> Seq<char> {
    "mirror"@
}

impl OriginsDocument {
    /// The rule that a bare tag stands for; `None` for an unknown tag.
    pub fn from_tag(tag: &str) -> (rule: Option<OriginsDocument>)
        ensures
            rule == if tag@ == any_tag() {
                Some(OriginsDocument::Any)
            } else if tag@ == mirror_tag() {
                Some(OriginsDocument::Mirror)
            } else {
                None
            },
    {
        if same_text(tag, "any") {
            Some(OriginsDocument::Any)
        } else if same_text(tag, "mirror") {
            Some(OriginsDocument::Mirror)
        } else {
            None
        }
    }

    /// The tag of the rule; `None` for a list.
    pub fn tag(&self) -> (tag: Option<&'static str>)
        ensures
            match *self {
                OriginsDocument::Any => tag is Some && tag.unwrap()@ == any_tag(),
                OriginsDocument::Mirror => tag is Some && tag.unwrap()@ == mirror_tag(),
                OriginsDocument::List(_) => tag is None,
            },
    {
        match self {
            OriginsDocument::Any => Some("any"),
            OriginsDocument::Mirror => Some("mirror"),
            OriginsDocument::List(_) => None,
        }
    }
}

impl HeadersDocument {
    /// The rule that a bare tag stands for; `None` for an unknown tag.
    pub fn from_tag(tag: &str) -> (rule: Option<HeadersDocument>)
        ensures
            rule == if tag@ == any_tag() {
                Some(HeadersDocument::Any)
            } else if tag@ == mirror_tag() {
                Some(HeadersDocument::Mirror)
            } else {
                None
            },
    {
        if same_text(tag, "any") {
            Some(HeadersDocument::Any)
        } else if same_text(tag, "mirror") {
            Some(HeadersDocument::Mirror)
        } else {
            None
        }
    }

    /// The tag of the rule; `None` for a list.
    pub fn tag(&self) -> (tag: Option<&'static str>)
        ensures
            match *self {
                HeadersDocument::Any => tag is Some && tag.unwrap()@ == any_tag(),
                HeadersDocument::Mirror => tag is Some && tag.unwrap()@ == mirror_tag(),
                HeadersDocument::List(_) => tag is None,
            },
    {
        match self {
            HeadersDocument::Any => Some("any"),
            HeadersDocument::Mirror => Some("mirror"),
            HeadersDocument::List(_) => None,
        }
    }
}

impl MethodsDocument {
    /// The rule that a bare tag stands for; `None` for an unknown tag.
    pub fn from_tag(tag: &str) -> (rule: Option<MethodsDocument>)
        ensures
            rule == if tag@ == mirror_tag() {
                Some(MethodsDocument::Mirror)
            } else {
                None
            },
    {
        if same_text(tag, "mirror") {
            Some(MethodsDocument::Mirror)
        } else {
            None
        }
    }

    /// The tag of the rule; `None` for a list.
    pub fn tag(&self) -> (tag: Option<&'static str>)
        ensures
            match *self {
                MethodsDocument::Mirror => tag is Some && tag.unwrap()@ == mirror_tag(),
                MethodsDocument::List(_) => tag is None,
            },
    {
        match self {
            MethodsDocument::Mirror => Some("mirror"),
            MethodsDocument::List(_) => None,
        }
    }
}

impl ExposeDocument {
    /// The rule that a bare tag stands for; `None` for an unknown tag.
    pub fn from_tag(tag: &str) -> (rule: Option<ExposeDocument>)
        ensures
            rule == if tag@ == any_tag() {
                Some(ExposeDocument::Any)
            } else {
                None
            },
    {
        if same_text(tag, "any") {
            Some(ExposeDocument::Any)
        } else {
            None
        }
    }

    /// The tag of the rule; `None` for a list.
    pub fn tag(&self) -> (tag: Option<&'static str>)
        ensures
            match *self {
                ExposeDocument::Any => tag is Some && tag.unwrap()@ == any_tag(),
                ExposeDocument::List(_) => tag is None,
            },
    {
        match self {
            ExposeDocument::Any => Some("any"),
            ExposeDocument::List(_) => None,
        }
    }
}

/// The set of header names that a list of tokens stands for, or the fault
/// in the list.
pub open spec fn names_of(tokens: Seq<Seq<char>>) -> Result<Seq<Seq<char>>, Fault> {
    match header_tokens_fault(tokens) {
        Some(fault) => Err(fault),
        None => Ok(distinct(lowered_all(tokens))),
    }
}

/// The header rule that a document's rule stands for, or the fault in it.
pub open spec fn header_rule_of(rule: HeadersDocument) -> Result<HeaderRule, Fault> {
    match rule {
        HeadersDocument::Any => Ok(HeaderRule::Any),
        HeadersDocument::Mirror => Ok(HeaderRule::Mirror),
        HeadersDocument::List(tokens) => match names_of(texts(tokens@)) {
            Ok(names) => Ok(HeaderRule::List(names)),
            Err(fault) => Err(fault),
        },
    }
}

/// The method rule that a document's rule stands for, or the fault in it.
pub open spec fn method_rule_of(rule: MethodsDocument) -> Result<MethodRule, Fault> {
    match rule {
        MethodsDocument::Mirror => Ok(MethodRule::Mirror),
        MethodsDocument::List(tokens) => match method_tokens_fault(texts(tokens@)) {
            Some(fault) => Err(fault),
            None => Ok(MethodRule::List(distinct(methods_of(texts(tokens@))))),
        },
    }
}

/// The origin rule that a document's rule stands for, or the fault in it.
pub open spec fn origin_rule_of(rule: OriginsDocument) -> Result<OriginRule, Fault> {
    match rule {
        OriginsDocument::Any => Ok(OriginRule::Any),
        OriginsDocument::Mirror => Ok(OriginRule::Mirror),
        OriginsDocument::List(sources) => match pattern_fault(distinct(texts(sources@))) {
            Some(fault) => Err(fault),
            None => Ok(OriginRule::List(distinct(texts(sources@)))),
        },
    }
}

/// The expose-headers rule that a document's rule stands for, or the fault
/// in it.
pub open spec fn expose_rule_of(rule: ExposeDocument) -> Result<ExposeRule, Fault> {
    match rule {
        ExposeDocument::Any => Ok(ExposeRule::Any),
        ExposeDocument::List(tokens) => match names_of(texts(tokens@)) {
            Ok(names) => Ok(ExposeRule::List(names)),
            Err(fault) => Err(fault),
        },
    }
}

/// The lifetime that a document's max-age stands for, or the fault in it.
/// No text, no lifetime.
pub open spec fn lifetime_of(text: Option<String>) -> Result<Option<u64>, Fault> {
    match text {
        None => Ok(None),
        Some(text) => match max_age_of(text@) {
            Ok(seconds) => Ok(Some(seconds)),
            Err(fault) => Err(fault),
        },
    }
}

/// The vary set that a document's list stands for, or the fault in it. No
/// list, no names.
pub open spec fn vary_of(tokens: Option<Vec<String>>) -> Result<Seq<Seq<char>>, Fault> {
    match tokens {
        None => Ok(Seq::empty()),
        Some(tokens) => names_of(texts(tokens@)),
    }
}

/// A flag of a document: unset where it is absent.
pub open spec fn flag_of(flag: Option<bool>) -> bool {
    match flag {
        Some(flag) => flag,
        None => false,
    }
}

/// The policy that a document stands for, or the first fault in it. The
/// fields are checked in this order: the allowed headers, methods and
/// origins, the max-age, the exposed headers, the vary list.
pub open spec fn policy_of(document: Document) -> Result<Policy, Fault> {
    match header_rule_of(document.allowed_headers) {
        Err(fault) => Err(fault),
        Ok(allowed_headers) => match method_rule_of(document.allowed_methods) {
            Err(fault) => Err(fault),
            Ok(allowed_methods) => match origin_rule_of(document.allowed_origins) {
                Err(fault) => Err(fault),
                Ok(allowed_origins) => match lifetime_of(document.max_age) {
                    Err(fault) => Err(fault),
                    Ok(max_age) => match expose_rule_of(document.expose_headers) {
                        Err(fault) => Err(fault),
                        Ok(expose_headers) => match vary_of(document.vary) {
                            Err(fault) => Err(fault),
                            Ok(vary) => Ok(
                                Policy {
                                    allow_credentials: flag_of(document.allow_credentials),
                                    allowed_headers,
                                    allowed_methods,
                                    allowed_origins,
                                    allow_private_network: flag_of(
                                        document.allow_private_network,
                                    ),
                                    max_age,
                                    expose_headers,
                                    vary,
                                },
                            ),
                        },
                    },
                },
            },
        },
    }
}

/// Whether `document` is the policy written down: every field present, a
/// list for a list with the same items in the same order, and the max-age
/// in seconds.
pub open spec fn written(policy: Policy, document: Document) -> bool {
    &&& document.allow_credentials == Some(policy.allow_credentials)
    &&& document.allow_private_network == Some(policy.allow_private_network)
    &&& match policy.allowed_headers {
        HeaderRule::Any => document.allowed_headers is Any,
        HeaderRule::Mirror => document.allowed_headers is Mirror,
        HeaderRule::List(names) => document.allowed_headers is List && texts(
            document.allowed_headers->List_0@,
        ) == names,
    }
    &&& match policy.allowed_methods {
        MethodRule::Mirror => document.allowed_methods is Mirror,
        MethodRule::List(methods) => document.allowed_methods is List && texts(
            document.allowed_methods->List_0@,
        ) == tokens_of(methods),
    }
    &&& match policy.allowed_origins {
        OriginRule::Any => document.allowed_origins is Any,
        OriginRule::Mirror => document.allowed_origins is Mirror,
        OriginRule::List(sources) => document.allowed_origins is List && texts(
            document.allowed_origins->List_0@,
        ) == sources,
    }
    &&& match policy.max_age {
        Some(seconds) => document.max_age is Some && document.max_age.unwrap()@ == seconds_text(
            seconds,
        ),
        None => document.max_age is None,
    }
    &&& match policy.expose_headers {
        ExposeRule::Any => document.expose_headers is Any,
        ExposeRule::List(names) => document.expose_headers is List && texts(
            document.expose_headers->List_0@,
        ) == names,
    }
    &&& document.vary is Some && texts(document.vary.unwrap()@) == policy.vary
}

impl Config {
    /// Builds the policy that a document stands for. Everything in the
    /// document is checked here, once; a document with a fault yields no
    /// policy but the error of its first fault.
    pub fn from_document(document: Document) -> (built: Result<Config, PolicyError>)
        ensures
            match built {
                Ok(config) => policy_of(document) == Ok::<Policy, Fault>(config@) && config.wf(),
                Err(error) => policy_of(document) == Err::<Policy, Fault>(error@),
            },
    {
        let allowed_headers = match document.allowed_headers {
            HeadersDocument::Any => AllowedHeaders::Any,
            HeadersDocument::Mirror => AllowedHeaders::Mirror,
            HeadersDocument::List(tokens) => match crate::serde_header_name::deserialize(tokens) {
                Ok(names) => AllowedHeaders::List(names),
                Err(error) => {
                    return Err(error);
                },
            },
        };
        let allowed_methods = match document.allowed_methods {
            MethodsDocument::Mirror => AllowedMethods::Mirror,
            MethodsDocument::List(tokens) => match crate::serde_method::deserialize(tokens) {
                Ok(methods) => AllowedMethods::List(methods),
                Err(error) => {
                    return Err(error);
                },
            },
        };
        let allowed_origins = match document.allowed_origins {
            OriginsDocument::Any => AllowedOrigins::Any,
            OriginsDocument::Mirror => AllowedOrigins::Mirror,
            OriginsDocument::List(sources) => match crate::serde_regex_set::deserialize(sources) {
                Ok(patterns) => AllowedOrigins::List(patterns),
                Err(error) => {
                    return Err(error);
                },
            },
        };
        let max_age = match document.max_age {
            None => None,
            Some(text) => match parse_max_age(text.as_str()) {
                Ok(seconds) => Some(seconds),
                Err(error) => {
                    return Err(error);
                },
            },
        };
        let expose_headers = match document.expose_headers {
            ExposeDocument::Any => ExposeHeaders::Any,
            ExposeDocument::List(tokens) => match crate::serde_header_name::deserialize(tokens) {
                Ok(names) => ExposeHeaders::List(names),
                Err(error) => {
                    return Err(error);
                },
            },
        };
        let vary = match document.vary {
            None => crate::header_name::HeaderSet::new(),
            Some(tokens) => match crate::serde_header_name::deserialize(tokens) {
                Ok(names) => names,
                Err(error) => {
                    return Err(error);
                },
            },
        };
        Ok(
            Config {
                allow_credentials: match document.allow_credentials {
                    Some(flag) => flag,
                    None => false,
                },
                allowed_headers,
                allowed_methods,
                allowed_origins,
                allow_private_network: match document.allow_private_network {
                    Some(flag) => flag,
                    None => false,
                },
                max_age,
                expose_headers,
                vary: Vary(vary),
            },
        )
    }

    /// Writes the policy down as a document.
    pub fn to_document(&self) -> (document: Document)
        ensures
            written(self@, document),
    {
        Document {
            allow_credentials: Some(self.allow_credentials),
            allowed_headers: match &self.allowed_headers {
                AllowedHeaders::Any => HeadersDocument::Any,
                AllowedHeaders::Mirror => HeadersDocument::Mirror,
                AllowedHeaders::List(names) => HeadersDocument::List(
                    crate::serde_header_name::serialize(names),
                ),
            },
            allowed_methods: match &self.allowed_methods {
                AllowedMethods::Mirror => MethodsDocument::Mirror,
                AllowedMethods::List(methods) => MethodsDocument::List(
                    crate::serde_method::serialize(methods),
                ),
            },
            allowed_origins: match &self.allowed_origins {
                AllowedOrigins::Any => OriginsDocument::Any,
                AllowedOrigins::Mirror => OriginsDocument::Mirror,
                AllowedOrigins::List(patterns) => OriginsDocument::List(
                    crate::serde_regex_set::serialize(patterns),
                ),
            },
            allow_private_network: Some(self.allow_private_network),
            max_age: match self.max_age {
                Some(seconds) => Some(format_max_age(seconds)),
                None => None,
            },
            expose_headers: match &self.expose_headers {
                ExposeHeaders::Any => ExposeDocument::Any,
                ExposeHeaders::List(names) => ExposeDocument::List(
                    crate::serde_header_name::serialize(names),
                ),
            },
            vary: Some(crate::serde_header_name::serialize(&self.vary.0)),
        }
    }
}

/// A sound set of header names, written as tokens, is read back as itself.
pub proof fn lemma_names_read_back(names: Seq<Seq<char>>)
    requires
        forall|i: int| 0 <= i < names.len() ==> crate::header_name::is_canonical_name(
            #[trigger] names[i],
        ),
        names.no_duplicates(),
    ensures
        names_of(names) == Ok::<Seq<Seq<char>>, Fault>(names),
{
    lemma_none_refused(names, |token: Seq<char>| is_header_token(token), 0);
    assert(lowered_all(names) =~= names) by {
        assert forall|i: int| 0 <= i < names.len() implies lowered_all(names)[i] == names[i] by {
            assert(lowered(names[i]) == names[i]);
        }
    }
    lemma_distinct_of_distinct(names);
}

/// A set of methods, written as wire tokens, is read back as itself.
pub proof fn lemma_methods_read_back(methods: Seq<Method>)
    requires
        methods.no_duplicates(),
    ensures
        method_tokens_fault(tokens_of(methods)) is None,
        distinct(methods_of(tokens_of(methods))) == methods,
{
    let tokens = tokens_of(methods);
    assert forall|i: int| 0 <= i < tokens.len() implies method_of(#[trigger] tokens[i]) == Some(
        methods[i],
    ) by {
        lemma_token_round_trip(methods[i], tokens[i]);
    }
    lemma_none_refused(tokens, |token: Seq<char>| method_of(token) is Some, 0);
    assert(methods_of(tokens) =~= methods);
    lemma_distinct_of_distinct(methods);
}

/// Writing a policy down and reading the document gives the policy back,
/// field by field: the same flags, the same rules with the same items in
/// the same order, the same lifetime and the same vary set. `to_document`
/// yields the document that `written` describes, and `from_document` the
/// policy that `policy_of` describes.
pub proof fn lemma_round_trip(config: Config, document: Document)
    requires
        config.wf(),
        written(config@, document),
    ensures
        policy_of(document) == Ok::<Policy, Fault>(config@),
{
    let policy = config@;
    match config.allowed_headers {
        AllowedHeaders::List(names) => {
            lemma_names_read_back(names@);
        },
        _ => {},
    }
    match config.allowed_methods {
        AllowedMethods::List(methods) => {
            lemma_methods_read_back(methods@);
        },
        _ => {},
    }
    match config.allowed_origins {
        AllowedOrigins::List(patterns) => {
            lemma_distinct_of_distinct(patterns@);
        },
        _ => {},
    }
    match config.max_age {
        Some(seconds) => {
            lemma_written_form_reads_back(seconds);
        },
        None => {},
    }
    match config.expose_headers {
        ExposeHeaders::List(names) => {
            lemma_names_read_back(names@);
        },
        _ => {},
    }
    lemma_names_read_back(config.vary.0@);
}

} // verus!
