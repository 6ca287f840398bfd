//! A map of named counters that many threads may share.

use crate::error::Error;
use crate::text::{integer, integer_text};
use dashmap::mapref::one::RefMut;
use dashmap::DashMap;
use std::sync::Arc;
use vstd::prelude::*;
use vstd::string::StringExecFns;

verus! {

/// `dashmap::DashMap`, a concurrent hash map. Its methods change it through a
/// shared reference, so no contract here speaks of what it holds at the time
/// of a call: only of what it held when it was made.
#[verifier::external_type_specification]
#[verifier::external_body]
#[verifier::reject_recursive_types(K)]
#[verifier::reject_recursive_types(V)]
#[verifier::reject_recursive_types(S)]
pub struct ExDashMap<K, V, S>(DashMap<K, V, S>);

/// The counts that a map held, key by key, when it was made. Counting later
/// changes what the map holds, through any reference to it, and not this.
pub uninterp spec fn initial_counts(map: DashMap<String, i64>) -> Map<Seq<char>, int>;

/// `DashMap::new`: the map is made without entries.
#[verifier::external_body]
fn empty_map() -> (made: DashMap<String, i64>)
    ensures
        initial_counts(made) == (Map::<Seq<char>, int>::empty()),
{
    DashMap::new()
}

/// `dashmap::mapref::one::RefMut`, exclusive access to one entry of a map: it
/// holds the lock of the entry's shard until it is dropped.
#[verifier::external_type_specification]
#[verifier::external_body]
#[verifier::reject_recursive_types(K)]
#[verifier::reject_recursive_types(V)]
#[verifier::reject_recursive_types(S)]
pub struct ExRefMut<'a, K, V, S>(RefMut<'a, K, V, S>);

/// `DashMap::entry` and `Entry::or_insert`: exclusive access to the entry of
/// `key`, which is given the count `initial` first if the map has none for
/// it. Nothing is claimed of the count found there: other holders of the map
/// may have counted before.
#[verifier::external_body]
fn entry_or_insert<'a>(
    map: &'a DashMap<String, i64>,
    key: String,
    initial: i64,
) -> RefMut<'a, String, i64> {
    map.entry(key).or_insert(initial)
}

/// `RefMut::value`: the count of the entry.
#[verifier::external_body]
fn value(entry: &RefMut<'_, String, i64>) -> i64 {
    *entry.value()
}

/// `RefMut::value_mut`: makes `count` the count of the entry.
#[verifier::external_body]
fn set_value(entry: &mut RefMut<'_, String, i64>, count: i64) {
    *entry.value_mut() = count;
}

/// `DashMap::iter`: the keys and counts that a walk over the map meets, in the
/// order of the walk. The order is not specified, and the map may change
/// during the walk, so nothing is claimed of the result.
#[verifier::external_body]
fn entries(map: &DashMap<String, i64>) -> Vec<(String, i64)> {
    map.iter().map(|entry| (entry.key().clone(), *entry.value())).collect()
}

/// The count that follows `count`. The successor of the largest count is the
/// smallest one.
pub fn successor(count: i64) -> (next: i64)
    ensures
        next == if count == i64::MAX {
            i64::MIN as int
        } else {
            count + 1
        },
{
    count.wrapping_add(1)
}

/// One line of a dump: the key, a colon and a space, the count in decimal,
/// and a line feed.
pub open spec fn line_text(key: Seq<char>, count: int) -> Seq<char> {
    key + ": "@ + integer_text(count) + "\n"@
}

/// The dump of a list of counters: one line for each, in the list's order.
pub open spec fn dump_text(entries: Seq<(String, i64)>) -> Seq<char>
    decreases entries.len(),
{
    if entries.len() == 0 {
        Seq::empty()
    } else {
        dump_text(entries.drop_last()) + line_text(entries.last().0@, entries.last().1 as int)
    }
}

/// Writes a list of counters as a dump, one `key: count` line for each.
pub fn render(entries: &Vec<(String, i64)>) -> (text: String)
    ensures
        text@ == dump_text(entries@),
{
    let mut text = String::new();
    let mut i: usize = 0;
    while i < entries.len()
        invariant
            i <= entries@.len(),
            text@ == dump_text(entries@.take(i as int)),
        decreases entries@.len() - i,
    {
        assert(entries@.take(i + 1).drop_last() =~= entries@.take(i as int));
        text.append(entries[i].0.as_str());
        text.append(": ");
        text.append(integer(entries[i].1).as_str());
        text.append("\n");
        assert(text@ =~= dump_text(entries@.take(i + 1)));
        i = i + 1;
    }
    assert(entries@.take(i as int) =~= entries@);
    text
}

/// Counters by name, behind a handle that can be cloned and shared between
/// threads: all clones count into one map.
#[derive(Debug, Clone)]
pub struct Metrics {
    data: Arc<DashMap<String, i64>>,
}

impl Metrics {
    /// The counts with which the shared map began, key by key. What it holds
    /// now is for `to_string` to find out: every handle to the map may have
    /// counted since.
    pub closed spec fn initial_counts(&self) -> Map<Seq<char>, int> {
        initial_counts(*self.data)
    }

    /// A handle to a map of its own, which begins without counters.
    pub fn new() -> (metrics: Self)
        ensures
            metrics.initial_counts() == (Map::<Seq<char>, int>::empty()),
    {
        Self { data: Arc::new(empty_map()) }
    }

    /// Counts once more for `key`: a key without a counter gets one at 0
    /// first, and the counter then moves to its successor, all under the
    /// lock of the key's entry. This always succeeds.
    pub fn inc<K: Into<String>>(&self, key: K) -> (r: Result<(), Error>)
        ensures
            r is Ok,
    {
        let mut entry = entry_or_insert(&self.data, key.into(), 0);
        let next = successor(value(&entry));
        set_value(&mut entry, next);
        Ok(())
    }

    /// A dump of the counters that a walk over the map meets, one
    /// `key: count` line for each, in the order of the walk.
    pub fn to_string(&self) -> (text: String)
        ensures
            exists|entries: Seq<(String, i64)>| text@ == dump_text(entries),
    {
        let entries = entries(&self.data);
        render(&entries)
    }
}

impl Default for Metrics {
    fn default() -> Self {
        Self::new()
    }
}

} // verus!
