//! Header names and sets of them. A header name is a token whose case does
//! not count: it is kept in lower case, and a set holds no name twice.

use crate::error::{Fault, PolicyError};
use crate::text::{first_refused, same_text};
use vstd::prelude::*;
use vstd::string::StringExecFns;

verus! {

/// Whether `c` may stand in a header name: a letter, a digit or one of the
/// fifteen marks that the grammar of tokens admits.
pub open spec fn is_token_char(c: char) -> bool {
    ||| 'a' <= c <= 'z'
    ||| 'A' <= c <= 'Z'
    ||| '0' <= c <= '9'
    ||| c == '!'
    ||| c == '#'
    ||| c == '$'
    ||| c == '%'
    ||| c == '&'
    ||| c == '\''
    ||| c == '*'
    ||| c == '+'
    ||| c == '-'
    ||| c == '.'
    ||| c == '^'
    ||| c == '_'
    ||| c == '`'
    ||| c == '|'
    ||| c == '~'
}

/// The longest header name, in characters.
pub const MAX_NAME_LEN: usize = 65535;

/// Whether `token` can be read as a header name: between one character and
/// `MAX_NAME_LEN` of them, each a token character.
pub open spec fn is_header_token(token: Seq<char>) -> bool {
    &&& 1 <= token.len() <= MAX_NAME_LEN
    &&& forall|i: int| 0 <= i < token.len() ==> is_token_char(#[trigger] token[i])
}

/// `c` with an upper-case letter turned into its lower-case one.
pub open spec fn lower(c: char) -> char {
    if 'A' <= c <= 'Z' {
        ((c as u8 + 32) as u8) as char
    } else {
        c
    }
}

/// The text with each character in lower case.
pub open spec fn lowered(token: Seq<char>) -> Seq<char> {
    token.map_values(|c: char| lower(c))
}

/// Whether `name` is a header name in the form in which it is kept.
pub open spec fn is_canonical_name(name: Seq<char>) -> bool {
    is_header_token(name) && lowered(name) == name
}

/// Each text in lower case.
pub open spec fn lowered_all(tokens: Seq<Seq<char>>) -> Seq<Seq<char>> {
    tokens.map_values(|token: Seq<char>| lowered(token))
}

/// The fault in a list of header-name tokens: the first that is no header
/// name, if there is one.
pub open spec fn header_tokens_fault(tokens: Seq<Seq<char>>) -> Option<Fault> {
    let at = first_refused(tokens, |token: Seq<char>| is_header_token(token), 0);
    if at < tokens.len() {
        Some(Fault::HeaderName { token: tokens[at] })
    } else {
        None
    }
}

/// The lower-case form of a header token is a canonical name.
pub proof fn lemma_lowered_is_canonical(token: Seq<char>)
    requires
        is_header_token(token),
    ensures
        is_canonical_name(lowered(token)),
{
    let name = lowered(token);
    assert forall|i: int| 0 <= i < name.len() implies is_token_char(#[trigger] name[i]) && lower(
        name[i],
    ) == name[i] by {
        assert(is_token_char(token[i]));
    }
    assert(lowered(name) =~= name);
}

/// Calls `http::HeaderName::from_bytes` on the token and hands back the text
/// of the name it built. Trusted: the call accepts exactly the header
/// tokens, and the name it builds is the token in lower case.
#[verifier::external_body]
fn canonical_text(token: &str) -> (name: Option<String>)
    ensures
        match name {
            Some(text) => is_header_token(token@) && text@ == lowered(token@),
            None => !is_header_token(token@),
        },
{
    http::HeaderName::from_bytes(token.as_bytes()).ok().map(|name| name.as_str().to_string())
}

/// A header name, in lower case.
#[derive(Debug, PartialEq, Eq, Hash)]
pub struct HeaderName {
    text: String,
}

impl View for HeaderName {
    type V = Seq<char>;

    closed spec fn view(&self) -> Seq<char> {
        self.text@
    }
}

impl Clone for HeaderName {
    fn clone(&self) -> (copy: HeaderName)
        ensures
            copy@ == self@,
    {
        proof {
            use_type_invariant(self);
        }
        HeaderName { text: self.text.clone() }
    }
}

impl HeaderName {
    #[verifier::type_invariant]
    pub open spec fn wf(&self) -> bool {
        is_canonical_name(self@)
    }

    /// Reads a token as a header name. Upper and lower case are the same
    /// name; a token that is no header name is refused.
    pub fn from_token(token: &str) -> (parsed: Result<HeaderName, PolicyError>)
        ensures
            match parsed {
                Ok(name) => is_header_token(token@) && name@ == lowered(token@) && name.wf(),
                Err(error) => !is_header_token(token@) && error@ == (Fault::HeaderName {
                    token: token@,
                }),
            },
    {
        match canonical_text(token) {
            Some(text) => {
                proof {
                    lemma_lowered_is_canonical(token@);
                }
                Ok(HeaderName { text })
            },
            None => Err(PolicyError::InvalidHeaderName { token: String::from_str(token) }),
        }
    }

    /// The name `origin`.
    pub fn origin() -> (name: HeaderName)
        ensures
            name@ == "origin"@,
            name.wf(),
    {
        proof {
            lemma_origin_is_canonical();
        }
        HeaderName { text: String::from_str("origin") }
    }

    /// The name, in lower case.
    pub fn as_str(&self) -> (text: &str)
        ensures
            text@ == self@,
            is_canonical_name(text@),
    {
        proof {
            use_type_invariant(self);
        }
        self.text.as_str()
    }

    /// Whether the two are the same name.
    pub fn same_as(&self, other: &HeaderName) -> (same: bool)
        ensures
            same == (self@ == other@),
    {
        same_text(self.text.as_str(), other.text.as_str())
    }
}

/// `origin` is a header name in lower case.
pub proof fn lemma_origin_is_canonical()
    ensures
        is_canonical_name("origin"@),
{
    reveal_strlit("origin");
    let name = "origin"@;
    assert(name.len() == 6);
    assert(name[0] == 'o' && name[1] == 'r' && name[2] == 'i' && name[3] == 'g' && name[4] == 'i'
        && name[5] == 'n');
    assert(lowered(name) =~= name);
}

/// A set of header names, in the order in which they came in.
#[derive(Debug, PartialEq, Eq)]
pub struct HeaderSet {
    names: Vec<HeaderName>,
}

impl View for HeaderSet {
    type V = Seq<Seq<char>>;

    /// The names, in order.
    closed spec fn view(&self) -> Seq<Seq<char>> {
        self.names@.map_values(|name: HeaderName| name@)
    }
}

impl Clone for HeaderSet {
    fn clone(&self) -> (copy: HeaderSet)
        ensures
            copy@ == self@,
    {
        proof {
            use_type_invariant(self);
        }
        let mut names: Vec<HeaderName> = Vec::new();
        let mut i: usize = 0;
        while i < self.names.len()
            invariant
                i <= self.names.len(),
                names.len() == i,
                forall|j: int| 0 <= j < i ==> names@[j]@ == #[trigger] self.names@[j]@,
            decreases self.names.len() - i,
        {
            names.push(self.names[i].clone());
            i += 1;
        }
        assert(names@.map_values(|name: HeaderName| name@) =~= self@);
        HeaderSet { names }
    }
}

impl HeaderSet {
    /// What holds of every set: each name is canonical, and none stands
    /// twice.
    #[verifier::type_invariant]
    pub open spec fn wf(&self) -> bool {
        &&& forall|i: int| 0 <= i < self@.len() ==> is_canonical_name(#[trigger] self@[i])
        &&& self@.no_duplicates()
    }

    /// The empty set.
    pub fn new() -> (set: HeaderSet)
        ensures
            set@ == Seq::<Seq<char>>::empty(),
            set.wf(),
    {
        let set = HeaderSet { names: Vec::new() };
        assert(set@ =~= Seq::<Seq<char>>::empty());
        set
    }

    /// The number of names.
    pub fn len(&self) -> (count: usize)
        ensures
            count == self@.len(),
    {
        self.names.len()
    }

    /// Whether the set holds no name.
    pub fn is_empty(&self) -> (empty: bool)
        ensures
            empty == (self@.len() == 0),
    {
        self.names.len() == 0
    }

    /// The names, in order.
    pub fn names(&self) -> (names: &Vec<HeaderName>)
        ensures
            names@.map_values(|name: HeaderName| name@) == self@,
            self.wf(),
    {
        proof {
            use_type_invariant(self);
        }
        &self.names
    }

    /// Whether the set holds the name.
    pub fn contains(&self, name: &HeaderName) -> (found: bool)
        ensures
            found == self@.contains(name@),
    {
        let mut i: usize = 0;
        while i < self.names.len()
            invariant
                i <= self.names.len(),
                forall|j: int| 0 <= j < i ==> self@[j] != name@,
            decreases self.names.len() - i,
        {
            if self.names[i].same_as(name) {
                assert(self@[i as int] == name@);
                return true;
            }
            i += 1;
        }
        false
    }

    /// Adds the name at the end unless the set holds it already, and says
    /// whether it was added.
    pub fn insert(&mut self, name: HeaderName) -> (added: bool)
        ensures
            added == !old(self)@.contains(name@),
            final(self)@ == if added {
                old(self)@.push(name@)
            } else {
                old(self)@
            },
            final(self).wf(),
    {
        proof {
            use_type_invariant(&*self);
            use_type_invariant(&name);
        }
        if self.contains(&name) {
            false
        } else {
            let ghost before = self@;
            let ghost added = name@;
            let mut names: Vec<HeaderName> = Vec::new();
            assert(names@.map_values(|name: HeaderName| name@) =~= Seq::<Seq<char>>::empty());
            core::mem::swap(&mut self.names, &mut names);
            names.push(name);
            assert(names@.map_values(|name: HeaderName| name@) =~= before.push(added));
            core::mem::swap(&mut self.names, &mut names);
            true
        }
    }
}

} // verus!
