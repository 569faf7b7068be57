//! Text and byte-string helpers shared by the rest of the crate.

use vstd::prelude::*;

verus! {

/// The character sequences of a list of strings, in order.
pub open spec fn texts(strings: Seq<String>) -> Seq<Seq<char>> {
    strings.map_values(|s: String| s@)
}

/// The sequence without its repeats: of equal items only the first stays,
/// and what stays keeps its order.
pub open spec fn distinct<A>(items: Seq<A>) -> Seq<A>
    decreases items.len(),
{
    if items.len() == 0 {
        Seq::empty()
    } else {
        let before = distinct(items.drop_last());
        if before.contains(items.last()) {
            before
        } else {
            before.push(items.last())
        }
    }
}

/// The index of the first item at or after `from` that `accepts` refuses;
/// the length of the sequence if it accepts them all.
pub open spec fn first_refused<A>(items: Seq<A>, accepts: spec_fn(A) -> bool, from: int) -> int
    decreases items.len() - from,
{
    if from >= items.len() {
        items.len() as int
    } else if !accepts(items[from]) {
        from
    } else {
        first_refused(items, accepts, from + 1)
    }
}

/// A sequence without repeats is its own `distinct`.
pub proof fn lemma_distinct_of_distinct<A>(items: Seq<A>)
    requires
        items.no_duplicates(),
    ensures
        distinct(items) == items,
    decreases items.len(),
{
    if items.len() > 0 {
        lemma_distinct_of_distinct(items.drop_last());
        assert(!items.drop_last().contains(items.last()));
        assert(items.drop_last().push(items.last()) =~= items);
    }
}

/// `distinct` holds no item twice, and holds exactly the items it was given.
pub proof fn lemma_distinct_properties<A>(items: Seq<A>)
    ensures
        distinct(items).no_duplicates(),
        forall|a: A| distinct(items).contains(a) <==> items.contains(a),
    decreases items.len(),
{
    if items.len() > 0 {
        let front = items.drop_last();
        lemma_distinct_properties(front);
        let before = distinct(front);
        let all = distinct(items);
        assert forall|a: A| all.contains(a) <==> items.contains(a) by {
            if items.contains(a) {
                let i = choose|i: int| 0 <= i < items.len() && items[i] == a;
                if i < items.len() - 1 {
                    assert(front[i] == a);
                }
            }
            if front.contains(a) {
                let i = choose|i: int| 0 <= i < front.len() && front[i] == a;
                assert(items[i] == a);
            }
            assert(items[items.len() - 1] == items.last());
            assert(items.contains(a) <==> (front.contains(a) || a == items.last()));
            if !before.contains(items.last()) {
                if all.contains(a) {
                    let j = choose|j: int| 0 <= j < all.len() && all[j] == a;
                    if j < before.len() {
                        assert(before[j] == a);
                    }
                }
                if before.contains(a) {
                    let j = choose|j: int| 0 <= j < before.len() && before[j] == a;
                    assert(all[j] == a);
                }
                assert(all[before.len() as int] == items.last());
            }
        }
        if !before.contains(items.last()) {
            assert forall|i: int, j: int| 0 <= i < all.len() && 0 <= j < all.len() && i != j implies all[i]
                != all[j] by {
                if i < before.len() {
                    assert(before[i] == all[i]);
                }
                if j < before.len() {
                    assert(before[j] == all[j]);
                }
            }
        }
    }
}

/// The parts joined into one byte string, with `sep` between neighbours.
pub open spec fn joined(parts: Seq<Seq<u8>>, sep: Seq<u8>) -> Seq<u8>
    decreases parts.len(),
{
    if parts.len() == 0 {
        Seq::empty()
    } else if parts.len() == 1 {
        parts[0]
    } else {
        joined(parts.drop_last(), sep) + sep + parts.last()
    }
}

/// The UTF-8 encoding of each text, in order.
pub open spec fn encoded(names: Seq<Seq<char>>) -> Seq<Seq<u8>> {
    names.map_values(|name: Seq<char>| vstd::utf8::encode_utf8(name))
}

/// Two texts are equal exactly when their encodings are.
pub proof fn lemma_encoding_is_injective(a: Seq<char>, b: Seq<char>)
    ensures
        (vstd::utf8::encode_utf8(a) == vstd::utf8::encode_utf8(b)) <==> a == b,
{
    vstd::utf8::encode_utf8_decode_utf8(a);
    vstd::utf8::encode_utf8_decode_utf8(b);
}

/// A copy of a list of strings.
pub fn copy_of(strings: &Vec<String>) -> (copy: Vec<String>)
    ensures
        texts(copy@) == texts(strings@),
{
    let mut copy: Vec<String> = Vec::new();
    let mut i: usize = 0;
    while i < strings.len()
        invariant
            i <= strings.len(),
            copy.len() == i,
            forall|j: int| 0 <= j < i ==> copy@[j]@ == #[trigger] strings@[j]@,
        decreases strings.len() - i,
    {
        copy.push(strings[i].clone());
        i += 1;
    }
    assert(texts(copy@) =~= texts(strings@));
    copy
}

/// Where every item is accepted, none is the first refused.
pub proof fn lemma_none_refused<A>(items: Seq<A>, accepts: spec_fn(A) -> bool, from: int)
    requires
        0 <= from,
        forall|i: int| from <= i < items.len() ==> accepts(#[trigger] items[i]),
    ensures
        first_refused(items, accepts, from) >= items.len(),
    decreases items.len() - from,
{
    if from < items.len() {
        lemma_none_refused(items, accepts, from + 1);
    }
}

/// Whether the list holds a string of the given text.
pub fn holds(strings: &Vec<String>, text: &str) -> (found: bool)
    ensures
        found == texts(strings@).contains(text@),
{
    let mut i: usize = 0;
    while i < strings.len()
        invariant
            i <= strings.len(),
            forall|j: int| 0 <= j < i ==> texts(strings@)[j] != text@,
        decreases strings.len() - i,
    {
        if same_text(strings[i].as_str(), text) {
            assert(texts(strings@)[i as int] == text@);
            return true;
        }
        i += 1;
    }
    false
}

/// The list without its repeats.
pub fn without_repeats(strings: &Vec<String>) -> (kept: Vec<String>)
    ensures
        texts(kept@) == distinct(texts(strings@)),
{
    let ghost all = texts(strings@);
    let mut kept: Vec<String> = Vec::new();
    assert(texts(kept@) =~= distinct(all.take(0)));
    let mut i: usize = 0;
    while i < strings.len()
        invariant
            i <= strings.len(),
            all == texts(strings@),
            texts(kept@) == distinct(all.take(i as int)),
        decreases strings.len() - i,
    {
        proof {
            let next = all.take(i + 1);
            assert(next.drop_last() =~= all.take(i as int));
            assert(next.last() == strings@[i as int]@);
        }
        if !holds(&kept, strings[i].as_str()) {
            let ghost before = texts(kept@);
            kept.push(strings[i].clone());
            assert(texts(kept@) =~= before.push(strings@[i as int]@));
        }
        i += 1;
    }
    assert(all.take(i as int) =~= all);
    kept
}

/// Whether two strings hold the same text.
pub fn same_text(a: &str, b: &str) -> (same: bool)
    ensures
        same == (a@ == b@),
{
    let x = a.as_bytes();
    let y = b.as_bytes();
    proof {
        lemma_encoding_is_injective(a@, b@);
    }
    assert((x@ == y@) <==> (a@ == b@));
    if x.len() != y.len() {
        return false;
    }
    let mut i: usize = 0;
    while i < x.len()
        invariant
            i <= x.len(),
            x.len() == y.len(),
            forall|j: int| 0 <= j < i ==> x@[j] == y@[j],
            (x@ == y@) <==> (a@ == b@),
        decreases x.len() - i,
    {
        if x[i] != y[i] {
            return false;
        }
        i += 1;
    }
    assert(x@ =~= y@);
    true
}

} // verus!
