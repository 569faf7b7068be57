//! The nine request methods a policy can name.

use crate::error::{Fault, PolicyError};
use crate::text::{first_refused, same_text};
use vstd::prelude::*;
use vstd::string::StringExecFns;

verus! {

/// A request method. Only these nine exist; each stands for its upper-case
/// wire token.
#[derive(Debug, Clone, Copy, PartialEq, Eq, Hash, Structural)]
pub enum Method {
    Connect,
    Delete,
    Get,
    Head,
    Options,
    Patch,
    Post,
    Put,
    Trace,
}

impl Method {
    /// The wire token of the method.
    pub open spec fn token(self) -> Seq<char> {
        match self {
            Method::Connect => "CONNECT"@,
            Method::Delete => "DELETE"@,
            Method::Get => "GET"@,
            Method::Head => "HEAD"@,
            Method::Options => "OPTIONS"@,
            Method::Patch => "PATCH"@,
            Method::Post => "POST"@,
            Method::Put => "PUT"@,
            Method::Trace => "TRACE"@,
        }
    }

    /// The wire token of the method.
    pub fn as_str(&self) -> (token: &'static str)
        ensures
            token@ == self.token(),
    {
        match self {
            Method::Connect => "CONNECT",
            Method::Delete => "DELETE",
            Method::Get => "GET",
            Method::Head => "HEAD",
            Method::Options => "OPTIONS",
            Method::Patch => "PATCH",
            Method::Post => "POST",
            Method::Put => "PUT",
            Method::Trace => "TRACE",
        }
    }

    /// The method with the given wire token. Tokens are case-sensitive: any
    /// text but the nine upper-case tokens is refused.
    pub fn from_token(token: &str) -> (parsed: Result<Method, PolicyError>)
        ensures
            match parsed {
                Ok(method) => method_of(token@) == Some(method),
                Err(error) => method_of(token@) is None && error@ == (Fault::Method {
                    token: token@,
                }),
            },
    {
        if same_text(token, "CONNECT") {
            Ok(Method::Connect)
        } else if same_text(token, "DELETE") {
            Ok(Method::Delete)
        } else if same_text(token, "GET") {
            Ok(Method::Get)
        } else if same_text(token, "HEAD") {
            Ok(Method::Head)
        } else if same_text(token, "OPTIONS") {
            Ok(Method::Options)
        } else if same_text(token, "PATCH") {
            Ok(Method::Patch)
        } else if same_text(token, "POST") {
            Ok(Method::Post)
        } else if same_text(token, "PUT") {
            Ok(Method::Put)
        } else if same_text(token, "TRACE") {
            Ok(Method::Trace)
        } else {
            Err(PolicyError::InvalidMethod { token: String::from_str(token) })
        }
    }
}

/// The method that a wire token stands for, if it is one of the nine.
pub open spec fn method_of(token: Seq<char>) -> Option<Method> {
    if token == "CONNECT"@ {
        Some(Method::Connect)
    } else if token == "DELETE"@ {
        Some(Method::Delete)
    } else if token == "GET"@ {
        Some(Method::Get)
    } else if token == "HEAD"@ {
        Some(Method::Head)
    } else if token == "OPTIONS"@ {
        Some(Method::Options)
    } else if token == "PATCH"@ {
        Some(Method::Patch)
    } else if token == "POST"@ {
        Some(Method::Post)
    } else if token == "PUT"@ {
        Some(Method::Put)
    } else if token == "TRACE"@ {
        Some(Method::Trace)
    } else {
        None
    }
}

/// The methods that a list of wire tokens stands for, in order.
pub open spec fn methods_of(tokens: Seq<Seq<char>>) -> Seq<Method> {
    tokens.map_values(|token: Seq<char>| method_of(token).unwrap())
}

/// The wire tokens of a list of methods, in order.
pub open spec fn tokens_of(methods: Seq<Method>) -> Seq<Seq<char>> {
    methods.map_values(|method: Method| method.token())
}

/// The fault in a list of method tokens: the first that is none of the
/// nine, if there is one.
pub open spec fn method_tokens_fault(tokens: Seq<Seq<char>>) -> Option<Fault> {
    let at = first_refused(tokens, |token: Seq<char>| method_of(token) is Some, 0);
    if at < tokens.len() {
        Some(Fault::Method { token: tokens[at] })
    } else {
        None
    }
}

/// No two methods share a wire token.
pub proof fn lemma_tokens_are_distinct(a: Method, b: Method)
    requires
        a.token() == b.token(),
    ensures
        a == b,
{
    reveal_strlit("CONNECT");
    reveal_strlit("DELETE");
    reveal_strlit("GET");
    reveal_strlit("HEAD");
    reveal_strlit("OPTIONS");
    reveal_strlit("PATCH");
    reveal_strlit("POST");
    reveal_strlit("PUT");
    reveal_strlit("TRACE");
    assert("CONNECT"@.len() == 7 && "CONNECT"@[0] == 'C');
    assert("DELETE"@.len() == 6 && "DELETE"@[0] == 'D');
    assert("GET"@.len() == 3 && "GET"@[0] == 'G');
    assert("HEAD"@.len() == 4 && "HEAD"@[0] == 'H');
    assert("OPTIONS"@.len() == 7 && "OPTIONS"@[0] == 'O');
    assert("PATCH"@.len() == 5 && "PATCH"@[0] == 'P');
    assert("POST"@.len() == 4 && "POST"@[0] == 'P');
    assert("PUT"@.len() == 3 && "PUT"@[0] == 'P');
    assert("TRACE"@.len() == 5 && "TRACE"@[0] == 'T');
}

/// A method and its wire token stand for each other: the token of a method
/// is read as that method, and a token that is read as a method is its
/// token.
pub proof fn lemma_token_round_trip(method: Method, token: Seq<char>)
    ensures
        method_of(method.token()) == Some(method),
        method_of(token) == Some(method) ==> method.token() == token,
{
    let back = method_of(method.token());
    assert(back is Some);
    lemma_tokens_are_distinct(back.unwrap(), method);
}

/// A set of methods, in the order in which they came in.
#[derive(Debug, PartialEq, Eq)]
pub struct MethodSet {
    methods: Vec<Method>,
}

impl View for MethodSet {
    type V = Seq<Method>;

    /// The methods, in order.
    closed spec fn view(&self) -> Seq<Method> {
        self.methods@
    }
}

impl Clone for MethodSet {
    fn clone(&self) -> (copy: MethodSet)
        ensures
            copy@ == self@,
    {
        proof {
            use_type_invariant(self);
        }
        let mut methods: Vec<Method> = Vec::new();
        let mut i: usize = 0;
        while i < self.methods.len()
            invariant
                i <= self.methods.len(),
                methods@ == self.methods@.take(i as int),
            decreases self.methods.len() - i,
        {
            methods.push(self.methods[i]);
            assert(self.methods@.take(i + 1) =~= self.methods@.take(i as int).push(
                self.methods@[i as int],
            ));
            i += 1;
        }
        assert(self.methods@.take(i as int) =~= self.methods@);
        MethodSet { methods }
    }
}

impl MethodSet {
    /// What holds of every set: no method stands twice.
    #[verifier::type_invariant]
    pub open spec fn wf(&self) -> bool {
        self@.no_duplicates()
    }

    /// The empty set.
    pub fn new() -> (set: MethodSet)
        ensures
            set@ == Seq::<Method>::empty(),
            set.wf(),
    {
        MethodSet { methods: Vec::new() }
    }

    /// The number of methods.
    pub fn len(&self) -> (count: usize)
        ensures
            count == self@.len(),
    {
        self.methods.len()
    }

    /// Whether the set holds no method.
    pub fn is_empty(&self) -> (empty: bool)
        ensures
            empty == (self@.len() == 0),
    {
        self.methods.len() == 0
    }

    /// The methods, in order.
    pub fn methods(&self) -> (methods: &Vec<Method>)
        ensures
            methods@ == self@,
            self.wf(),
    {
        proof {
            use_type_invariant(self);
        }
        &self.methods
    }

    /// Whether the set holds the method.
    pub fn contains(&self, method: Method) -> (found: bool)
        ensures
            found == self@.contains(method),
    {
        let mut i: usize = 0;
        while i < self.methods.len()
            invariant
                i <= self.methods.len(),
                forall|j: int| 0 <= j < i ==> self@[j] != method,
            decreases self.methods.len() - i,
        {
            if self.methods[i] == method {
                return true;
            }
            i += 1;
        }
        false
    }

    /// Adds the method at the end unless the set holds it already, and says
    /// whether it was added.
    pub fn insert(&mut self, method: Method) -> (added: bool)
        ensures
            added == !old(self)@.contains(method),
            final(self)@ == if added {
                old(self)@.push(method)
            } else {
                old(self)@
            },
            final(self).wf(),
    {
        proof {
            use_type_invariant(&*self);
        }
        if self.contains(method) {
            false
        } else {
            let mut methods: Vec<Method> = Vec::new();
            core::mem::swap(&mut self.methods, &mut methods);
            methods.push(method);
            core::mem::swap(&mut self.methods, &mut methods);
            true
        }
    }
}

} // verus!
