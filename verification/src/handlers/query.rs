//! The parameters of a request's query, each key once.
//!
//! They are kept as a list: a forwarded request names them one after the
//! other, and a list has the same order in every run.

use crate::handlers::reply::headers_view;
use crate::text::same_text;
use vstd::prelude::*;

verus! {

/// Whether no key stands twice among `pairs`.
pub open spec fn distinct_keys(pairs: Seq<(Seq<char>, Seq<char>)>) -> bool {
    forall|i: int, j: int|
        0 <= i < j < pairs.len() ==> (#[trigger] pairs[i]).0 != (#[trigger] pairs[j]).0
}

/// Whether `key` is the key of a pair of `pairs` at the index `from` or later.
pub open spec fn key_occurs_from(
    pairs: Seq<(Seq<char>, Seq<char>)>,
    key: Seq<char>,
    from: int,
) -> bool {
    exists|j: int| from <= j < pairs.len() && (#[trigger] pairs[j]).0 == key
}

/// Of the first `bound` pairs, those whose key does not occur again later in
/// `pairs`, in order.
pub open spec fn kept_below(pairs: Seq<(Seq<char>, Seq<char>)>, bound: int) -> Seq<
    (Seq<char>, Seq<char>),
>
    decreases bound,
{
    if bound <= 0 {
        Seq::empty()
    } else if key_occurs_from(pairs, pairs[bound - 1].0, bound) {
        kept_below(pairs, bound - 1)
    } else {
        kept_below(pairs, bound - 1).push(pairs[bound - 1])
    }
}

/// The pairs with every key once: of a repeated key the last pair stays, as
/// in a map that was filled pair by pair.
pub open spec fn last_of_each(pairs: Seq<(Seq<char>, Seq<char>)>) -> Seq<(Seq<char>, Seq<char>)> {
    kept_below(pairs, pairs.len() as int)
}

/// Whether `pair` stands among the first `bound` of `pairs`, with its key not
/// occurring again after it.
pub open spec fn is_last_of_key(
    pairs: Seq<(Seq<char>, Seq<char>)>,
    pair: (Seq<char>, Seq<char>),
    bound: int,
) -> bool {
    exists|k: int|
        0 <= k < bound && k < pairs.len() && #[trigger] pairs[k] == pair && !key_occurs_from(
            pairs,
            pair.0,
            k + 1,
        )
}

/// What is kept holds no key twice, and each kept pair is the last of its key.
pub proof fn lemma_kept_below(pairs: Seq<(Seq<char>, Seq<char>)>, bound: int)
    requires
        bound <= pairs.len(),
    ensures
        distinct_keys(kept_below(pairs, bound)),
        forall|m: int|
            0 <= m < kept_below(pairs, bound).len() ==> is_last_of_key(
                pairs,
                #[trigger] kept_below(pairs, bound)[m],
                bound,
            ),
    decreases bound,
{
    if bound > 0 {
        lemma_kept_below(pairs, bound - 1);
        let before = kept_below(pairs, bound - 1);
        let now = kept_below(pairs, bound);
        let last = pairs[bound - 1];
        assert forall|m: int| 0 <= m < before.len() implies is_last_of_key(
            pairs,
            #[trigger] before[m],
            bound,
        ) && before[m].0 != last.0 by {
            assert(is_last_of_key(pairs, before[m], bound - 1));
            let k = choose|k: int|
                0 <= k < bound - 1 && k < pairs.len() && #[trigger] pairs[k] == before[m]
                    && !key_occurs_from(pairs, before[m].0, k + 1);
            if before[m].0 == last.0 {
                assert(pairs[bound - 1].0 == before[m].0);
                assert(key_occurs_from(pairs, before[m].0, k + 1));
            }
        }
        if !key_occurs_from(pairs, last.0, bound) {
            assert(pairs[bound - 1] == last);
            assert(is_last_of_key(pairs, last, bound));
            assert forall|m: int| 0 <= m < now.len() implies is_last_of_key(
                pairs,
                #[trigger] now[m],
                bound,
            ) by {
                if m < before.len() {
                    assert(now[m] == before[m]);
                }
            }
            assert forall|i: int, j: int|
                0 <= i < j < now.len() implies (#[trigger] now[i]).0 != (#[trigger] now[j]).0 by {
                if j < before.len() {
                    assert(now[i] == before[i] && now[j] == before[j]);
                } else {
                    assert(now[i] == before[i]);
                }
            }
        }
    }
}

/// The parameters of a query: pairs of key and value, no key twice.
#[derive(Debug)]
pub struct Query {
    pairs: Vec<(String, String)>,
}

impl View for Query {
    type V = Seq<(Seq<char>, Seq<char>)>;

    closed spec fn view(&self) -> Seq<(Seq<char>, Seq<char>)> {
        headers_view(self.pairs@)
    }
}

/// Whether `key` is the key of a pair of `pairs` at the index `from` or later.
fn occurs_later(pairs: &Vec<(String, String)>, key: &str, from: usize) -> (r: bool)
    requires
        from <= pairs.len(),
    ensures
        r == key_occurs_from(headers_view(pairs@), key@, from as int),
{
    let mut j: usize = from;
    while j < pairs.len()
        invariant
            from <= j <= pairs.len(),
            forall|k: int| from <= k < j ==> (#[trigger] headers_view(pairs@)[k]).0 != key@,
        decreases pairs.len() - j,
    {
        if same_text(pairs[j].0.as_str(), key) {
            assert(headers_view(pairs@)[j as int].0 == key@);
            return true;
        }
        j += 1;
    }
    false
}

impl Query {
    #[verifier::type_invariant]
    spec fn well_formed(&self) -> bool {
        distinct_keys(headers_view(self.pairs@))
    }

    /// The query of the given pairs: of a repeated key only the last pair stays.
    pub fn new(pairs: Vec<(String, String)>) -> (query: Query)
        ensures
            query@ == last_of_each(headers_view(pairs@)),
    {
        let ghost all = headers_view(pairs@);
        let mut kept: Vec<(String, String)> = Vec::new();
        let mut i: usize = 0;
        assert(headers_view(kept@) =~= kept_below(all, 0));
        while i < pairs.len()
            invariant
                0 <= i <= pairs.len(),
                all == headers_view(pairs@),
                headers_view(kept@) == kept_below(all, i as int),
            decreases pairs.len() - i,
        {
            let ghost earlier = headers_view(kept@);
            if !occurs_later(&pairs, pairs[i].0.as_str(), i + 1) {
                kept.push((pairs[i].0.clone(), pairs[i].1.clone()));
                assert(headers_view(kept@) =~= earlier.push(all[i as int]));
            }
            i += 1;
        }
        proof {
            lemma_kept_below(all, all.len() as int);
        }
        Query { pairs: kept }
    }

    /// The pairs of the query, in order.
    pub fn pairs(&self) -> (pairs: &Vec<(String, String)>)
        ensures
            headers_view(pairs@) == self@,
            distinct_keys(self@),
    {
        proof {
            use_type_invariant(self);
        }
        &self.pairs
    }
}

} // verus!
