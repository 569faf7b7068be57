//! Origin patterns: a list of regular expressions compiled once into one
//! matcher, kept together with the texts they were written as.

use crate::error::{Fault, PolicyError};
use crate::text::{copy_of, distinct, lemma_distinct_properties, texts, without_repeats};
use vstd::prelude::*;
use vstd::string::StringExecFns;

verus! {

/// `regex::RegexSet`: a compiled set of patterns. Nothing inside it is
/// visible to the verifier.
#[verifier::external_type_specification]
#[verifier::external_body]
pub struct ExRegexSet(regex::RegexSet);

/// The patterns that a compiled `regex::RegexSet` was built from, in order.
pub uninterp spec fn regex_set_patterns(set: regex::RegexSet) -> Seq<Seq<char>>;

/// The answer of `regex::RegexSet::new` to a list of patterns: `None` where
/// it builds a set, else the text of its error.
pub uninterp spec fn regex_set_error(patterns: Seq<Seq<char>>) -> Option<Seq<char>>;

/// Whether `regex::RegexSet::is_match`, on a set built from `patterns`,
/// finds a match of at least one of them somewhere in `text`.
pub uninterp spec fn regex_set_is_match(patterns: Seq<Seq<char>>, text: Seq<char>) -> bool;

/// Calls `regex::RegexSet::new` on the patterns, with the engine's default
/// limits. Trusted: the call either builds a set of exactly these patterns
/// or fails with an error whose text is handed back; which of the two, and
/// the text, depend on the patterns alone.
#[verifier::external_body]
fn compile(patterns: &Vec<String>) -> (built: Result<regex::RegexSet, String>)
    ensures
        match built {
            Ok(set) => regex_set_error(texts(patterns@)) is None && regex_set_patterns(set)
                == texts(patterns@),
            Err(reason) => regex_set_error(texts(patterns@)) == Some(reason@),
        },
{
    regex::RegexSet::new(patterns).map_err(|error| error.to_string())
}

/// Calls `regex::RegexSet::is_match`. Trusted: the answer depends only on
/// the patterns the set was built from and on the text.
#[verifier::external_body]
fn is_match(set: &regex::RegexSet, text: &str) -> (found: bool)
    ensures
        found == regex_set_is_match(regex_set_patterns(*set), text@),
{
    set.is_match(text)
}

/// `Clone` for `regex::RegexSet`. Trusted: the copy was built from the same
/// patterns as the set it was taken of.
pub assume_specification[ <regex::RegexSet as Clone>::clone ](set: &regex::RegexSet) -> (copy:
    regex::RegexSet)
    ensures
        regex_set_patterns(copy) == regex_set_patterns(*set),
;

/// A pattern made to match whole texts only: the pattern as a group between
/// the start-of-text and end-of-text anchors.
pub open spec fn anchored(pattern: Seq<char>) -> Seq<char> {
    "\\A(?:"@ + pattern + ")\\z"@
}

/// Every pattern of the list, anchored.
pub open spec fn anchored_all(patterns: Seq<Seq<char>>) -> Seq<Seq<char>> {
    patterns.map_values(|pattern: Seq<char>| anchored(pattern))
}

/// The length of the shortest prefix of `patterns`, of length `from` at
/// least, that the engine refuses to compile; the whole length if there is
/// none shorter.
pub open spec fn refused_prefix(patterns: Seq<Seq<char>>, from: int) -> int
    decreases patterns.len() - from,
{
    if from >= patterns.len() {
        patterns.len() as int
    } else if regex_set_error(patterns.take(from)) is Some {
        from
    } else {
        refused_prefix(patterns, from + 1)
    }
}

/// The pattern to blame when `compiled` is refused: the source whose
/// compiled form ends the shortest refused prefix.
pub open spec fn refused_source(sources: Seq<Seq<char>>, compiled: Seq<Seq<char>>) -> Seq<char> {
    if compiled.len() == 0 || compiled.len() != sources.len() {
        Seq::empty()
    } else {
        sources[refused_prefix(compiled, 1) - 1]
    }
}

/// The fault in a list of pattern sources, if it has one. A list is sound
/// when the engine compiles it both as written and anchored.
pub open spec fn pattern_fault(sources: Seq<Seq<char>>) -> Option<Fault> {
    if regex_set_error(sources) is Some {
        Some(
            Fault::Pattern {
                source: refused_source(sources, sources),
                reason: regex_set_error(sources).unwrap(),
            },
        )
    } else if regex_set_error(anchored_all(sources)) is Some {
        Some(
            Fault::Pattern {
                source: refused_source(sources, anchored_all(sources)),
                reason: regex_set_error(anchored_all(sources)).unwrap(),
            },
        )
    } else {
        None
    }
}

/// Whether a set of the given sources matches the text: whether at least
/// one of them, anchored, matches it. No sources, no match.
pub open spec fn patterns_match(sources: Seq<Seq<char>>, text: Seq<char>) -> bool {
    sources.len() > 0 && regex_set_is_match(anchored_all(sources), text)
}

/// The anchored form of one pattern.
fn anchor(pattern: &str) -> (whole: String)
    ensures
        whole@ == anchored(pattern@),
{
    String::from_str("\\A(?:").concat(pattern).concat(")\\z")
}

/// The anchored forms of all patterns, in order.
fn anchor_all(patterns: &Vec<String>) -> (whole: Vec<String>)
    ensures
        texts(whole@) == anchored_all(texts(patterns@)),
{
    let mut whole: Vec<String> = Vec::new();
    let mut i: usize = 0;
    while i < patterns.len()
        invariant
            i <= patterns.len(),
            whole.len() == i,
            forall|j: int| 0 <= j < i ==> whole@[j]@ == anchored(#[trigger] patterns@[j]@),
        decreases patterns.len() - i,
    {
        whole.push(anchor(patterns[i].as_str()));
        i += 1;
    }
    assert(texts(whole@) =~= anchored_all(texts(patterns@)));
    whole
}

/// The index of the last pattern of the shortest refused prefix.
fn refused_index(patterns: &Vec<String>) -> (index: usize)
    requires
        patterns.len() > 0,
    ensures
        index == refused_prefix(texts(patterns@), 1) - 1,
        index < patterns.len(),
{
    let ghost all = texts(patterns@);
    let mut prefix: Vec<String> = Vec::new();
    prefix.push(patterns[0].clone());
    let mut k: usize = 1;
    while k < patterns.len()
        invariant
            1 <= k <= patterns.len(),
            all == texts(patterns@),
            prefix.len() == k,
            forall|j: int| 0 <= j < k ==> prefix@[j]@ == #[trigger] patterns@[j]@,
            refused_prefix(all, 1) == refused_prefix(all, k as int),
        decreases patterns.len() - k,
    {
        assert(texts(prefix@) =~= all.take(k as int));
        if compile(&prefix).is_err() {
            return k - 1;
        }
        prefix.push(patterns[k].clone());
        k += 1;
    }
    k - 1
}

/// The error for a list that the engine refused with `reason`.
fn refusal(sources: &Vec<String>, compiled: &Vec<String>, reason: String) -> (error: PolicyError)
    requires
        sources.len() == compiled.len(),
    ensures
        error@ == (Fault::Pattern {
            source: refused_source(texts(sources@), texts(compiled@)),
            reason: reason@,
        }),
{
    let source = if compiled.len() == 0 {
        String::new()
    } else {
        sources[refused_index(compiled)].clone()
    };
    PolicyError::InvalidPattern { source, reason }
}

/// A set of origin patterns, compiled. A text matches the set when at least
/// one pattern matches the whole of it; there is no order of precedence
/// among the patterns, and an empty set matches nothing.
#[derive(Debug)]
pub struct SerdeRegexSet {
    sources: Vec<String>,
    matcher: regex::RegexSet,
}

impl Clone for SerdeRegexSet {
    fn clone(&self) -> (copy: SerdeRegexSet)
        ensures
            copy@ == self@,
    {
        proof {
            use_type_invariant(self);
        }
        SerdeRegexSet { sources: copy_of(&self.sources), matcher: self.matcher.clone() }
    }
}

impl View for SerdeRegexSet {
    type V = Seq<Seq<char>>;

    /// The pattern sources, as written and in order.
    closed spec fn view(&self) -> Seq<Seq<char>> {
        texts(self.sources@)
    }
}

impl SerdeRegexSet {
    /// The patterns that the matcher inside was compiled from.
    pub closed spec fn compiled(&self) -> Seq<Seq<char>> {
        regex_set_patterns(self.matcher)
    }

    /// What holds of every set: no source stands twice, the sources are
    /// sound, and the matcher was compiled from their anchored forms.
    #[verifier::type_invariant]
    pub open spec fn wf(&self) -> bool {
        &&& self@.no_duplicates()
        &&& pattern_fault(self@) is None
        &&& self.compiled() == anchored_all(self@)
    }

    /// Whether the set matches the text.
    pub open spec fn matches(&self, text: Seq<char>) -> bool {
        patterns_match(self@, text)
    }

    /// Compiles a list of pattern sources. A source that comes again counts
    /// once, at the place of the first. The list is refused when the engine
    /// refuses it as written or anchored; the error names the source at
    /// which the list first turned unacceptable.
    pub fn new(sources: Vec<String>) -> (built: Result<SerdeRegexSet, PolicyError>)
        ensures
            match built {
                Ok(set) => pattern_fault(distinct(texts(sources@))) is None && set@ == distinct(
                    texts(sources@),
                ) && set.wf(),
                Err(error) => pattern_fault(distinct(texts(sources@))) == Some(error@),
            },
    {
        proof {
            lemma_distinct_properties(texts(sources@));
        }
        let sources = without_repeats(&sources);
        match compile(&sources) {
            Err(reason) => {
                return Err(refusal(&sources, &sources, reason));
            },
            Ok(_) => {},
        }
        let whole = anchor_all(&sources);
        assert(texts(whole@).len() == texts(sources@).len());
        match compile(&whole) {
            Err(reason) => Err(refusal(&sources, &whole, reason)),
            Ok(matcher) => Ok(SerdeRegexSet { sources, matcher }),
        }
    }

    /// Whether at least one pattern matches the whole of `text`.
    pub fn is_match(&self, text: &str) -> (found: bool)
        ensures
            found == self.matches(text@),
    {
        proof {
            use_type_invariant(self);
        }
        if self.sources.len() == 0 {
            false
        } else {
            is_match(&self.matcher, text)
        }
    }

    /// The pattern sources, as written and in order.
    pub fn patterns(&self) -> (sources: &Vec<String>)
        ensures
            texts(sources@) == self@,
    {
        &self.sources
    }

    /// The number of patterns.
    pub fn len(&self) -> (count: usize)
        ensures
            count == self@.len(),
    {
        self.sources.len()
    }

    /// Whether the set holds no pattern, and so matches nothing.
    pub fn is_empty(&self) -> (empty: bool)
        ensures
            empty == (self@.len() == 0),
    {
        self.sources.len() == 0
    }
}

} // verus!
