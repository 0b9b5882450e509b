//! Fuzzy search: a query matches a text when its characters occur in the
//! text in the same order, with anything in between.

use vstd::prelude::*;
use vstd::std_specs::iter::IteratorSpec;

verus! {

/// The characters of `query` occur in `text` in the same order, not
/// necessarily next to each other.
pub open spec fn is_subsequence(query: Seq<char>, text: Seq<char>) -> bool
    decreases text.len(),
{
    if query.len() == 0 {
        true
    } else if text.len() == 0 {
        false
    } else {
        ||| query.last() == text.last() && is_subsequence(query.drop_last(), text.drop_last())
        ||| is_subsequence(query, text.drop_last())
    }
}

/// No longer beginning of `query` than its first `found` characters occurs
/// in the first `seen` characters of `text`.
pub open spec fn is_longest_found(
    query: Seq<char>,
    text: Seq<char>,
    found: int,
    seen: int,
) -> bool {
    &&& 0 <= found <= query.len()
    &&& 0 <= seen <= text.len()
    &&& is_subsequence(query.take(found), text.take(seen))
    &&& forall|k: int|
        0 <= k <= query.len() && #[trigger] is_subsequence(query.take(k), text.take(seen)) ==> k
            <= found
}

/// What occurs in the beginning of a text occurs in the whole text.
pub proof fn lemma_subsequence_of_prefix(query: Seq<char>, text: Seq<char>, seen: int)
    requires
        0 <= seen <= text.len(),
        is_subsequence(query, text.take(seen)),
    ensures
        is_subsequence(query, text),
    decreases text.len() - seen,
{
    if seen < text.len() {
        let next = text.take(seen + 1);
        assert(next.drop_last() =~= text.take(seen));
        lemma_subsequence_of_prefix(query, text, seen + 1);
    } else {
        assert(text.take(seen) =~= text);
    }
}

/// Nothing but the empty query occurs in the empty text.
pub proof fn lemma_nothing_found_yet(query: Seq<char>, text: Seq<char>)
    ensures
        is_longest_found(query, text, 0, 0),
{
    assert(query.take(0) =~= Seq::<char>::empty());
    assert(text.take(0).len() == 0);
    assert forall|k: int|
        0 <= k <= query.len() && #[trigger] is_subsequence(
            query.take(k),
            text.take(0),
        ) implies k <= 0 by {
        if k > 0 {
            assert(query.take(k).len() > 0);
        }
    }
}

/// Taking the next character of the text whenever it is the next of the
/// query finds the longest beginning of the query that occurs at all.
pub proof fn lemma_greedy_step(query: Seq<char>, text: Seq<char>, found: int, seen: int)
    requires
        is_longest_found(query, text, found, seen),
        seen < text.len(),
    ensures
        found < query.len() && query[found] == text[seen] ==> is_longest_found(
            query,
            text,
            found + 1,
            seen + 1,
        ),
        !(found < query.len() && query[found] == text[seen]) ==> is_longest_found(
            query,
            text,
            found,
            seen + 1,
        ),
{
    let before = text.take(seen);
    let after = text.take(seen + 1);
    assert(after.drop_last() =~= before);
    assert(after.last() == text[seen]);
    let advance = found < query.len() && query[found] == text[seen];
    if advance {
        let longer = query.take(found + 1);
        assert(longer.drop_last() =~= query.take(found));
        assert(longer.last() == query[found]);
        assert(is_subsequence(longer, after));
    } else {
        if found > 0 {
            assert(query.take(found).len() > 0);
            assert(is_subsequence(query.take(found), after));
        } else {
            assert(query.take(found).len() == 0);
        }
    }
    let limit = if advance {
        found + 1
    } else {
        found
    };
    assert forall|k: int|
        0 <= k <= query.len() && #[trigger] is_subsequence(query.take(k), after) implies k
        <= limit by {
        if k > 0 {
            let part = query.take(k);
            assert(part.len() > 0 && after.len() > 0);
            assert(part.drop_last() =~= query.take(k - 1));
            assert(part.last() == query[k - 1]);
            if is_subsequence(part, before) {
                assert(k <= found);
            } else {
                assert(part.last() == after.last());
                assert(is_subsequence(query.take(k - 1), before));
                assert(k - 1 <= found);
                if k - 1 == found {
                    assert(advance);
                }
            }
        }
    }
}

/// Once the text is read to its end, the query occurs in it just when all of
/// the query was found.
pub proof fn lemma_found_all(query: Seq<char>, text: Seq<char>, found: int)
    requires
        is_longest_found(query, text, found, text.len() as int),
    ensures
        is_subsequence(query, text) <==> found == query.len(),
{
    assert(text.take(text.len() as int) =~= text);
    assert(query.take(query.len() as int) =~= query);
    if found == query.len() {
        assert(query.take(found) =~= query);
    }
}

/// Tells whether the characters of `query` occur in `text` in the same
/// order. The empty query matches every text.
pub fn matches_fuzzy(query: &str, text: &str) -> (matched: bool)
    ensures
        matched == is_subsequence(query@, text@),
{
    broadcast use {vstd::string::axiom_spec_iter, vstd::string::next_postcondition};

    let mut query_chars = query.chars();
    let mut current = query_chars.next();
    let mut text_chars = text.chars();
    let ghost mut found: int = 0;
    let ghost mut seen: int = 0;
    proof {
        lemma_nothing_found_yet(query@, text@);
        assert(query@.skip(0) =~= query@);
        assert(text@.skip(0) =~= text@);
        if query@.len() > 0 {
            assert(query@.drop_first() =~= query@.skip(1));
        }
    }
    loop
        invariant_except_break
            is_longest_found(query@, text@, found, seen),
            text_chars.remaining() == text@.skip(seen),
            found < query@.len() ==> current == Some(query@[found]) && query_chars.remaining()
                == query@.skip(found + 1),
            found == query@.len() ==> current is None,
        ensures
            current is None <==> is_subsequence(query@, text@),
        decreases text@.len() - seen,
    {
        match text_chars.next() {
            None => {
                proof {
                    assert(text@.skip(seen).len() == 0);
                    lemma_found_all(query@, text@, found);
                }
                break ;
            },
            Some(c) => {
                proof {
                    assert(text@.skip(seen)[0] == text@[seen]);
                    assert(text@.skip(seen).drop_first() =~= text@.skip(seen + 1));
                    lemma_greedy_step(query@, text@, found, seen);
                }
                match current {
                    Some(qc) => {
                        if qc == c {
                            current = query_chars.next();
                            proof {
                                if found + 1 < query@.len() {
                                    assert(query@.skip(found + 1)[0] == query@[found + 1]);
                                    assert(query@.skip(found + 1).drop_first() =~= query@.skip(
                                        found + 2,
                                    ));
                                } else {
                                    assert(query@.skip(found + 1).len() == 0);
                                }
                                found = found + 1;
                            }
                        }
                        proof {
                            seen = seen + 1;
                        }
                    },
                    None => {
                        proof {
                            assert(query@.take(found) =~= query@);
                            lemma_subsequence_of_prefix(query@, text@, seen);
                        }
                        break ;
                    },
                }
            },
        }
    }
    current.is_none()
}

} // verus!
