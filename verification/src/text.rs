//! Small verified helpers on strings and on lists of string pairs.
use vstd::prelude::*;
use vstd::string::StringExecFns;

verus! {

/// What an optional string stands for: its characters, where there is one.
pub open spec fn opt_text(s: Option<String>) -> Option<Seq<char>> {
    match s {
        Some(s) => Some(s@),
        None => None,
    }
}

/// The characters of an optional string, empty where there is none.
pub open spec fn text_or_empty(s: Option<String>) -> Seq<char> {
    match s {
        Some(s) => s@,
        None => Seq::empty(),
    }
}

/// What a list of strings stands for.
pub open spec fn texts(v: Seq<String>) -> Seq<Seq<char>> {
    v.map_values(|s: String| s@)
}

/// What a list of name and value pairs stands for.
pub open spec fn pairs(v: Seq<(String, String)>) -> Seq<(Seq<char>, Seq<char>)> {
    v.map_values(|p: (String, String)| (p.0@, p.1@))
}

/// A copy of an optional string, or the empty string where there is none.
pub fn clone_or_empty(s: &Option<String>) -> (r: String)
    ensures
        r@ == text_or_empty(*s),
{
    match s {
        Some(s) => s.clone(),
        None => String::new(),
    }
}

/// The texts of a list, one after the other, with a separator between one
/// and the next.
pub open spec fn joined(parts: Seq<Seq<char>>, separator: Seq<char>) -> Seq<char>
    decreases parts.len(),
{
    if parts.len() == 0 {
        Seq::empty()
    } else if parts.len() == 1 {
        parts[0]
    } else {
        joined(parts.drop_last(), separator) + separator + parts.last()
    }
}

/// The texts of a list, one after the other, with a separator between one
/// and the next.
pub fn join_all(parts: &Vec<String>, separator: &str) -> (r: String)
    ensures
        r@ == joined(texts(parts@), separator@),
{
    let mut out = String::new();
    let mut i: usize = 0;
    let ghost all = texts(parts@);
    assert(all.take(0) =~= Seq::empty());
    while i < parts.len()
        invariant
            i <= parts.len(),
            all == texts(parts@),
            out@ == joined(all.take(i as int), separator@),
        decreases parts.len() - i,
    {
        let ghost done = all.take(i + 1);
        assert(done.drop_last() =~= all.take(i as int));
        assert(done.last() == parts@[i as int]@);
        if i > 0 {
            out.append(separator);
        }
        out.append(parts[i].as_str());
        assert(out@ =~= joined(done, separator@));
        i += 1;
    }
    assert(all.take(parts.len() as int) =~= all);
    out
}

/// Two texts, one after the other.
pub fn join(a: &str, b: &str) -> (r: String)
    ensures
        r@ == a@ + b@,
{
    let mut out = String::from_str(a);
    out.append(b);
    out
}

/// A list of one pair.
pub fn one_pair(name: &str, value: &str) -> (r: Vec<(String, String)>)
    ensures
        pairs(r@) == seq![(name@, value@)],
{
    let mut out: Vec<(String, String)> = Vec::new();
    out.push((String::from_str(name), String::from_str(value)));
    assert(pairs(out@) =~= seq![(name@, value@)]);
    out
}

/// A list of pairs with one more pair at its end.
pub fn push_pair(list: Vec<(String, String)>, name: &str, value: &str) -> (r: Vec<
    (String, String),
>)
    ensures
        pairs(r@) == pairs(list@).push((name@, value@)),
{
    let mut out = list;
    out.push((String::from_str(name), String::from_str(value)));
    assert(pairs(out@) =~= pairs(list@).push((name@, value@)));
    out
}

/// An empty list of name and value pairs.
pub fn no_pairs() -> (r: Vec<(String, String)>)
    ensures
        pairs(r@) == Seq::<(Seq<char>, Seq<char>)>::empty(),
{
    let r: Vec<(String, String)> = Vec::new();
    assert(pairs(r@) =~= Seq::empty());
    r
}

} // verus!
