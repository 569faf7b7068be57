//! Sets of header names as they stand in a document: a list of tokens.

use crate::error::PolicyError;
use crate::header_name::{
    header_tokens_fault, is_header_token, lowered_all, HeaderName, HeaderSet,
};
use crate::text::{distinct, first_refused, texts};
use vstd::prelude::*;
use vstd::string::StringExecFns;

verus! {

/// The names of the set as a list of strings, in order.
pub fn serialize(value: &HeaderSet) -> (tokens: Vec<String>)
    ensures
        texts(tokens@) == value@,
{
    let names = value.names();
    let mut tokens: Vec<String> = Vec::new();
    let mut i: usize = 0;
    while i < names.len()
        invariant
            i <= names.len(),
            tokens.len() == i,
            names@.map_values(|name: HeaderName| name@) == value@,
            forall|j: int| 0 <= j < i ==> tokens@[j]@ == #[trigger] value@[j],
        decreases names.len() - i,
    {
        tokens.push(String::from_str(names[i].as_str()));
        i += 1;
    }
    assert(texts(tokens@) =~= value@);
    tokens
}

/// Reads a list of tokens as a set of header names. Tokens that are the
/// same name but for their case count once, at the place of the first. The
/// list is refused at its first token that is no header name.
pub fn deserialize(values: Vec<String>) -> (parsed: Result<HeaderSet, PolicyError>)
    ensures
        match parsed {
            Ok(set) => header_tokens_fault(texts(values@)) is None && set@ == distinct(
                lowered_all(texts(values@)),
            ) && set.wf(),
            Err(error) => header_tokens_fault(texts(values@)) == Some(error@),
        },
{
    let ghost all = texts(values@);
    let ghost accepts = |token: Seq<char>| is_header_token(token);
    let mut set = HeaderSet::new();
    let mut i: usize = 0;
    while i < values.len()
        invariant
            i <= values.len(),
            all == texts(values@),
            accepts == |token: Seq<char>| is_header_token(token),
            first_refused(all, accepts, 0) == first_refused(all, accepts, i as int),
            set@ == distinct(lowered_all(all).take(i as int)),
            set.wf(),
        decreases values.len() - i,
    {
        match HeaderName::from_token(values[i].as_str()) {
            Err(error) => {
                return Err(error);
            },
            Ok(name) => {
                proof {
                    let next = lowered_all(all).take(i + 1);
                    assert(next.drop_last() =~= lowered_all(all).take(i as int));
                    assert(next.last() == name@);
                }
                set.insert(name);
            },
        }
        i += 1;
    }
    assert(lowered_all(all).take(i as int) =~= lowered_all(all));
    Ok(set)
}

} // verus!
