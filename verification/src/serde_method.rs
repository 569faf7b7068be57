//! Sets of methods as they stand in a document: a list of wire tokens.

use crate::error::PolicyError;
use crate::method::{method_of, method_tokens_fault, methods_of, tokens_of, Method, MethodSet};
use crate::text::{distinct, first_refused, texts};
use vstd::prelude::*;
use vstd::string::StringExecFns;

verus! {

/// The wire tokens of the methods of the set, in order.
pub fn serialize(value: &MethodSet) -> (tokens: Vec<String>)
    ensures
        texts(tokens@) == tokens_of(value@),
{
    let methods = value.methods();
    let mut tokens: Vec<String> = Vec::new();
    let mut i: usize = 0;
    while i < methods.len()
        invariant
            i <= methods.len(),
            tokens.len() == i,
            methods@ == value@,
            forall|j: int| 0 <= j < i ==> tokens@[j]@ == (#[trigger] value@[j]).token(),
        decreases methods.len() - i,
    {
        tokens.push(String::from_str(methods[i].as_str()));
        i += 1;
    }
    assert(texts(tokens@) =~= tokens_of(value@));
    tokens
}

/// Reads a list of wire tokens as a set of methods. A token that comes again
/// counts once, at the place of the first. The list is refused at its first
/// token that is none of the nine.
pub fn deserialize(values: Vec<String>) -> (parsed: Result<MethodSet, PolicyError>)
    ensures
        match parsed {
            Ok(set) => method_tokens_fault(texts(values@)) is None && set@ == distinct(
                methods_of(texts(values@)),
            ) && set.wf(),
            Err(error) => method_tokens_fault(texts(values@)) == Some(error@),
        },
{
    let ghost all = texts(values@);
    let ghost accepts = |token: Seq<char>| method_of(token) is Some;
    let mut set = MethodSet::new();
    let mut i: usize = 0;
    while i < values.len()
        invariant
            i <= values.len(),
            all == texts(values@),
            accepts == |token: Seq<char>| method_of(token) is Some,
            first_refused(all, accepts, 0) == first_refused(all, accepts, i as int),
            set@ == distinct(methods_of(all).take(i as int)),
            set.wf(),
        decreases values.len() - i,
    {
        match Method::from_token(values[i].as_str()) {
            Err(error) => {
                return Err(error);
            },
            Ok(method) => {
                proof {
                    let next = methods_of(all).take(i + 1);
                    assert(next.drop_last() =~= methods_of(all).take(i as int));
                    assert(next.last() == method);
                }
                set.insert(method);
            },
        }
        i += 1;
    }
    assert(methods_of(all).take(i as int) =~= methods_of(all));
    Ok(set)
}

} // verus!
