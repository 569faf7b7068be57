//! Pattern sets as they stand in a document: a list of pattern sources.

use crate::error::PolicyError;
use crate::pattern::{pattern_fault, SerdeRegexSet};
use crate::text::{copy_of, distinct, texts};
use vstd::prelude::*;

verus! {

/// The pattern sources of the set, as written and in order.
pub fn serialize(value: &SerdeRegexSet) -> (sources: Vec<String>)
    ensures
        texts(sources@) == value@,
{
    copy_of(value.patterns())
}

/// Compiles a list of pattern sources into a set. A source that comes again
/// counts once; a list that the engine refuses is refused with the source to
/// blame.
pub fn deserialize(values: Vec<String>) -> (parsed: Result<SerdeRegexSet, PolicyError>)
    ensures
        match parsed {
            Ok(set) => pattern_fault(distinct(texts(values@))) is None && set@ == distinct(
                texts(values@),
            ) && set.wf(),
            Err(error) => pattern_fault(distinct(texts(values@))) == Some(error@),
        },
{
    SerdeRegexSet::new(values)
}

} // verus!
