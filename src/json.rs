//! A generic JSON value, as a parser hands it over, and lookup of a key in
//! an object.

use vstd::prelude::*;

verus! {

/// A parsed JSON value. An object keeps its entries in the order the parser
/// gave them, and its keys need not be unique: where a key occurs twice, the
/// first entry wins on lookup. Numbers keep their decimal text.
#[derive(Debug)]
pub enum Json {
    Null,
    Boolean(bool),
    Number(String),
    Str(String),
    Array(Vec<Json>),
    Object(Vec<(String, Json)>),
}

/// The value of the first entry of `entries` whose key is `key`; later
/// entries with the same key are never seen.
pub open spec fn lookup(entries: Seq<(String, Json)>, key: Seq<char>) -> Option<Json>
    decreases entries.len(),
{
    if entries.len() == 0 {
        None
    } else if entries[0].0@ == key {
        Some(entries[0].1)
    } else {
        lookup(entries.drop_first(), key)
    }
}

/// Finds the value of the first entry of `entries` whose key is `key`; where
/// the key occurs more than once, the first entry wins.
pub fn find<'a>(entries: &'a Vec<(String, Json)>, key: &String) -> (r: Option<&'a Json>)
    ensures
        match lookup(entries@, key@) {
            Some(v) => r matches Some(x) && *x == v,
            None => r is None,
        },
{
    let mut i: usize = 0;
    assert(entries@.subrange(0, entries@.len() as int) =~= entries@);
    while i < entries.len()
        invariant
            i <= entries@.len(),
            lookup(entries@, key@) == lookup(entries@.subrange(i as int, entries@.len() as int), key@),
        decreases entries@.len() - i,
    {
        let entry = &entries[i];
        if entry.0 == *key {
            return Some(&entry.1);
        }
        assert(entries@.subrange(i as int + 1, entries@.len() as int)
            =~= entries@.subrange(i as int, entries@.len() as int).drop_first());
        i = i + 1;
    }
    None
}

} // verus!
