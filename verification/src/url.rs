//! What the client reads of an address: its path, and the pairs of its query
//! with each key once.
use vstd::prelude::*;
use vstd::pervasive::VecAdditionalExecFns;
use crate::text::pairs;

verus! {

/// The path and the query pairs of a parsed address.
#[derive(Debug, Clone)]
pub struct UrlParts {
    /// The path, percent-encoded, as the address has it.
    pub path: String,
    /// The pairs of the query, decoded, in the order of the address.
    pub query: Vec<(String, String)>,
}

impl View for UrlParts {
    type V = (Seq<char>, Seq<(Seq<char>, Seq<char>)>);

    open spec fn view(&self) -> (Seq<char>, Seq<(Seq<char>, Seq<char>)>) {
        (self.path@, pairs(self.query@))
    }
}

/// The path and the query pairs of an address; `None` where the text is no
/// absolute URL.
pub uninterp spec fn url_parts(url: Seq<char>) -> Option<(Seq<char>, Seq<(Seq<char>, Seq<char>)>)>;

/// Parses the address with `Url::parse` of the `url` crate, as `reqwest`
/// hands it on, and reads `Url::path` and `Url::query_pairs` of the result.
/// The contract only gives the outcome its name: the same text always gives
/// the same parts.
#[verifier::external_body]
pub(crate) fn split_url(url: &str) -> (r: Option<UrlParts>)
    ensures
        r is Some == url_parts(url@) is Some,
        r matches Some(parts) ==> url_parts(url@) == Some(parts@),
{
    let parsed = reqwest::Url::parse(url).ok()?;
    Some(
        UrlParts {
            path: parsed.path().to_string(),
            query: parsed.query_pairs().into_owned().collect(),
        },
    )
}

/// The place of the first pair with this key; the length of the list where
/// no pair has it.
pub open spec fn position_of(list: Seq<(Seq<char>, Seq<char>)>, key: Seq<char>) -> int
    decreases list.len(),
{
    if list.len() == 0 {
        0
    } else if list[0].0 == key {
        0
    } else {
        1 + position_of(list.drop_first(), key)
    }
}

/// The value under a key: that of the first pair with the key.
pub open spec fn value_of(list: Seq<(Seq<char>, Seq<char>)>, key: Seq<char>) -> Option<Seq<char>> {
    if position_of(list, key) < list.len() {
        Some(list[position_of(list, key)].1)
    } else {
        None
    }
}

/// The value of the last pair with this key.
pub open spec fn last_value_of(list: Seq<(Seq<char>, Seq<char>)>, key: Seq<char>) -> Option<
    Seq<char>,
>
    decreases list.len(),
{
    if list.len() == 0 {
        None
    } else if list.last().0 == key {
        Some(list.last().1)
    } else {
        last_value_of(list.drop_last(), key)
    }
}

/// Whether no key stands twice in a list.
pub open spec fn distinct_keys(list: Seq<(Seq<char>, Seq<char>)>) -> bool {
    forall|i: int, j: int|
        0 <= i < j < list.len() ==> (#[trigger] list[i]).0 != (#[trigger] list[j]).0
}

/// A list of pairs with each key once: the keys in the order in which they
/// first stand in the list, each with the value that stands with it last.
pub open spec fn last_wins(list: Seq<(Seq<char>, Seq<char>)>) -> Seq<(Seq<char>, Seq<char>)>
    decreases list.len(),
{
    if list.len() == 0 {
        Seq::empty()
    } else {
        let done = last_wins(list.drop_last());
        let at = position_of(done, list.last().0);
        if at < done.len() {
            done.update(at, list.last())
        } else {
            done.push(list.last())
        }
    }
}

/// The place that [`position_of`] names lies in the list or just behind it;
/// where it lies in the list the key stands there, and nowhere before.
pub proof fn lemma_position_of(list: Seq<(Seq<char>, Seq<char>)>, key: Seq<char>)
    ensures
        0 <= position_of(list, key) <= list.len(),
        position_of(list, key) < list.len() ==> list[position_of(list, key)].0 == key,
        forall|i: int| 0 <= i < position_of(list, key) ==> (#[trigger] list[i]).0 != key,
    decreases list.len(),
{
    if list.len() > 0 && list[0].0 != key {
        let rest = list.drop_first();
        lemma_position_of(rest, key);
        assert forall|i: int| 0 <= i < position_of(list, key) implies (#[trigger] list[i]).0
            != key by {
            if i > 0 {
                assert(rest[i - 1] == list[i]);
            }
        }
    }
}

/// Where a list gives the same keys as another, a key has the same place in
/// both.
proof fn lemma_same_keys_same_position(
    a: Seq<(Seq<char>, Seq<char>)>,
    b: Seq<(Seq<char>, Seq<char>)>,
    key: Seq<char>,
)
    requires
        a.len() == b.len(),
        forall|i: int| 0 <= i < a.len() ==> a[i].0 == b[i].0,
    ensures
        position_of(a, key) == position_of(b, key),
    decreases a.len(),
{
    if a.len() > 0 && a[0].0 != key {
        lemma_same_keys_same_position(a.drop_first(), b.drop_first(), key);
    }
}

/// The place of a key in a list with one more pair at its end.
proof fn lemma_position_after_push(
    list: Seq<(Seq<char>, Seq<char>)>,
    pair: (Seq<char>, Seq<char>),
    key: Seq<char>,
)
    ensures
        position_of(list, key) < list.len() ==> position_of(list.push(pair), key) == position_of(
            list,
            key,
        ),
        position_of(list, key) == list.len() && pair.0 == key ==> position_of(
            list.push(pair),
            key,
        ) == list.len(),
        position_of(list, key) == list.len() && pair.0 != key ==> position_of(
            list.push(pair),
            key,
        ) == list.len() + 1,
    decreases list.len(),
{
    lemma_position_of(list, key);
    let more = list.push(pair);
    if list.len() == 0 {
        assert(more.drop_first() =~= Seq::empty());
        assert(more[0] == pair);
        assert(position_of(more.drop_first(), key) == 0);
    } else if list[0].0 != key {
        assert(more.drop_first() =~= list.drop_first().push(pair));
        lemma_position_after_push(list.drop_first(), pair, key);
    }
}

/// In the list that [`last_wins`] makes no key stands twice, and each key
/// has the value that stands with it last in the list it was made from.
pub proof fn lemma_last_wins(list: Seq<(Seq<char>, Seq<char>)>)
    ensures
        distinct_keys(last_wins(list)),
        forall|key: Seq<char>| #[trigger]
            value_of(last_wins(list), key) == last_value_of(list, key),
    decreases list.len(),
{
    if list.len() > 0 {
        let before = list.drop_last();
        let done = last_wins(before);
        let pair = list.last();
        let at = position_of(done, pair.0);
        lemma_last_wins(before);
        lemma_position_of(done, pair.0);
        let out = last_wins(list);
        if at < done.len() {
            assert(out == done.update(at, pair));
            assert forall|key: Seq<char>| #[trigger]
                value_of(out, key) == last_value_of(list, key) by {
                lemma_same_keys_same_position(done, out, key);
                lemma_position_of(done, key);
                assert(value_of(done, key) == last_value_of(before, key));
                if key == pair.0 {
                } else {
                    if position_of(done, key) < done.len() {
                        assert(position_of(done, key) != at);
                    }
                }
            }
        } else {
            assert(out == done.push(pair));
            assert forall|i: int, j: int| 0 <= i < j < out.len() implies (#[trigger] out[i]).0 != (
            #[trigger] out[j]).0 by {
                if j == done.len() {
                    assert(done[i].0 != pair.0);
                } else {
                    assert(done[i].0 != done[j].0);
                }
            }
            assert forall|key: Seq<char>| #[trigger]
                value_of(out, key) == last_value_of(list, key) by {
                lemma_position_after_push(done, pair, key);
                lemma_position_of(done, key);
                assert(value_of(done, key) == last_value_of(before, key));
            }
        }
    }
}

/// The place of the first pair with this key; the length of the list where
/// no pair has it.
pub fn find_key(list: &Vec<(String, String)>, key: &String) -> (r: usize)
    ensures
        r == position_of(pairs(list@), key@),
        r <= list@.len(),
{
    let ghost all = pairs(list@);
    let mut i: usize = 0;
    assert(all.skip(0) =~= all);
    while i < list.len()
        invariant
            i <= list.len(),
            all == pairs(list@),
            position_of(all, key@) == i + position_of(all.skip(i as int), key@),
        decreases list.len() - i,
    {
        let ghost rest = all.skip(i as int);
        assert(rest[0] == all[i as int]);
        assert(rest.drop_first() =~= all.skip(i + 1));
        if list[i].0 == *key {
            return i;
        }
        i += 1;
    }
    i
}

/// A list of pairs with each key once; see [`last_wins`].
pub fn unique_pairs(list: &Vec<(String, String)>) -> (r: Vec<(String, String)>)
    ensures
        pairs(r@) == last_wins(pairs(list@)),
{
    let ghost all = pairs(list@);
    let mut out: Vec<(String, String)> = Vec::new();
    let mut i: usize = 0;
    assert(all.take(0) =~= Seq::empty());
    assert(pairs(out@) =~= Seq::empty());
    while i < list.len()
        invariant
            i <= list.len(),
            all == pairs(list@),
            pairs(out@) == last_wins(all.take(i as int)),
        decreases list.len() - i,
    {
        let ghost done = all.take(i + 1);
        assert(done.drop_last() =~= all.take(i as int));
        assert(done.last() == all[i as int]);
        let ghost before = pairs(out@);
        let key = list[i].0.clone();
        let value = list[i].1.clone();
        let at = find_key(&out, &key);
        if at < out.len() {
            out.set(at, (key, value));
            assert(pairs(out@) =~= before.update(at as int, all[i as int]));
        } else {
            out.push((key, value));
            assert(pairs(out@) =~= before.push(all[i as int]));
        }
        i += 1;
    }
    assert(all.take(list.len() as int) =~= all);
    out
}

} // verus!
