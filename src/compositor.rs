use vstd::prelude::*;

use crate::workspace::{decode, Workspace};

verus! {

/// What serde_json reads from a JSON text as an array of objects, each with
/// unsigned integer fields `first` and `second`: nothing if the text is no
/// JSON, `Some(None)` if it is JSON of another shape.
pub uninterp spec fn json_u64_pairs(text: Seq<char>, first: Seq<char>, second: Seq<char>) -> Option<
    Option<Seq<(u64, u64)>>,
>;

/// What serde_json reads from a JSON text as an object with an unsigned
/// integer field `key`: nothing if the text is no JSON, `Some(None)` if the
/// field is missing or holds no unsigned integer.
pub uninterp spec fn json_u64_field(text: Seq<char>, key: Seq<char>) -> Option<Option<u64>>;

/// Relies on serde_json::from_str, Value::as_array, Value::get and
/// Value::as_u64 to read an array of objects with two unsigned integer
/// fields; the outcome depends on the text and the field names alone.
#[verifier::external_body]
fn read_u64_pairs(text: &str, first: &str, second: &str) -> (r: Option<Option<Vec<(u64, u64)>>>)
    ensures
        match r {
            None => json_u64_pairs(text@, first@, second@) is None,
            Some(None) => json_u64_pairs(text@, first@, second@) == Some(None::<Seq<(u64, u64)>>),
            Some(Some(v)) => json_u64_pairs(text@, first@, second@) == Some(Some(v@)),
        },
{
    serde_json::from_str::<serde_json::Value>(text).ok().map(|v| {
        v.as_array().and_then(|a| {
            a.iter()
                .map(|m| {
                    let a = m.get(first).and_then(serde_json::Value::as_u64);
                    a.zip(m.get(second).and_then(serde_json::Value::as_u64))
                })
                .collect()
        })
    })
}

/// Relies on serde_json::from_str, Value::get and Value::as_u64 to read an
/// unsigned integer field of a JSON object; the outcome depends on the text
/// and the field name alone.
#[verifier::external_body]
fn read_u64_field(text: &str, key: &str) -> (r: Option<Option<u64>>)
    ensures
        r == json_u64_field(text@, key@),
{
    serde_json::from_str::<serde_json::Value>(text).ok().map(|v| v.get(key).and_then(serde_json::Value::as_u64))
}

/// The two sockets of a compositor instance.
#[derive(Debug, Clone, Copy, PartialEq, Eq, Structural)]
pub enum HyprlandSocketKind {
    /// Takes one request per connection and answers it.
    Command,
    /// Streams events, one per line.
    Event,
}

/// The file name of a compositor socket within the instance's directory.
pub open spec fn socket_file(kind: HyprlandSocketKind) -> Seq<char> {
    match kind {
        HyprlandSocketKind::Command => ".socket.sock"@,
        HyprlandSocketKind::Event => ".socket2.sock"@,
    }
}

impl HyprlandSocketKind {
    /// The file name of this socket within the instance's directory.
    pub fn file_name(&self) -> (r: &'static str)
        ensures
            r@ == socket_file(*self),
    {
        match self {
            HyprlandSocketKind::Command => ".socket.sock",
            HyprlandSocketKind::Event => ".socket2.sock",
        }
    }
}

/// The query for the monitors.
pub const MONITORS_QUERY: &'static str = "-j/monitors";

/// The query for the active workspace.
pub const ACTIVE_WORKSPACE_QUERY: &'static str = "-j/activeworkspace";

/// Why a response of the compositor was not understood.
#[derive(Debug, Clone, Copy, PartialEq, Eq, Structural)]
pub enum QueryError {
    /// The response is not JSON.
    InvalidJson,
    /// The response is JSON without the expected fields.
    UnexpectedShape,
}

/// A monitor record `(id, x)` inserted into records ordered by `x`: after
/// every record whose `x` is not larger.
pub open spec fn insert_by_x(s: Seq<(u64, u64)>, e: (u64, u64)) -> Seq<(u64, u64)>
    decreases s.len(),
{
    if s.len() == 0 {
        seq![e]
    } else if s.last().1 <= e.1 {
        s.push(e)
    } else {
        insert_by_x(s.drop_last(), e).push(s.last())
    }
}

/// Monitor records `(id, x)` sorted by `x`, records with equal `x` kept in
/// their order.
pub open spec fn sort_by_x(s: Seq<(u64, u64)>) -> Seq<(u64, u64)>
    decreases s.len(),
{
    if s.len() == 0 {
        s
    } else {
        insert_by_x(sort_by_x(s.drop_last()), s.last())
    }
}

/// The monitor identifiers of records `(id, x)`, ordered left to right.
pub open spec fn ids_by_x(s: Seq<(u64, u64)>) -> Seq<u64> {
    sort_by_x(s).map_values(|r: (u64, u64)| r.0)
}

/// Whether records are ordered by `x`.
pub open spec fn sorted_by_x(s: Seq<(u64, u64)>) -> bool {
    forall|i: int, j: int| 0 <= i < j < s.len() ==> s[i].1 <= s[j].1
}

proof fn lemma_insert_at(s: Seq<(u64, u64)>, e: (u64, u64), j: int)
    requires
        0 <= j <= s.len(),
        forall|k: int| j <= k < s.len() ==> s[k].1 > e.1,
        j == 0 || s[j - 1].1 <= e.1,
    ensures
        insert_by_x(s, e) == s.insert(j, e),
    decreases s.len(),
{
    if s.len() == 0 {
        assert(s.insert(j, e) =~= seq![e]);
    } else if j == s.len() {
        assert(s.insert(j, e) =~= s.push(e));
    } else {
        let p = s.drop_last();
        lemma_insert_at(p, e, j);
        assert(p.insert(j, e).push(s.last()) =~= s.insert(j, e));
    }
}

proof fn lemma_insert_bounded(s: Seq<(u64, u64)>, e: (u64, u64), b: u64)
    requires
        forall|i: int| 0 <= i < s.len() ==> s[i].1 <= b,
        e.1 <= b,
    ensures
        insert_by_x(s, e).len() == s.len() + 1,
        forall|i: int| 0 <= i < insert_by_x(s, e).len() ==> insert_by_x(s, e)[i].1 <= b,
    decreases s.len(),
{
    if s.len() > 0 && s.last().1 > e.1 {
        lemma_insert_bounded(s.drop_last(), e, b);
    }
}

proof fn lemma_insert_sorted(s: Seq<(u64, u64)>, e: (u64, u64))
    requires
        sorted_by_x(s),
    ensures
        sorted_by_x(insert_by_x(s, e)),
    decreases s.len(),
{
    if s.len() > 0 {
        let p = s.drop_last();
        if s.last().1 <= e.1 {
            assert(sorted_by_x(s.push(e))) by {
                assert forall|i: int, j: int| 0 <= i < j < s.push(e).len() implies s.push(e)[i].1
                    <= s.push(e)[j].1 by {
                    if j == s.len() {
                        assert(s[i].1 <= s.last().1);
                    }
                }
            }
        } else {
            lemma_insert_sorted(p, e);
            lemma_insert_bounded(p, e, s.last().1);
            let t = insert_by_x(p, e);
            assert(sorted_by_x(t.push(s.last())));
        }
    }
}

/// Monitor records sorted by `x` are in ascending order of `x`, and as many
/// as before.
pub proof fn lemma_sort_by_x_sorted(s: Seq<(u64, u64)>)
    ensures
        sorted_by_x(sort_by_x(s)),
        sort_by_x(s).len() == s.len(),
    decreases s.len(),
{
    if s.len() > 0 {
        lemma_sort_by_x_sorted(s.drop_last());
        lemma_insert_sorted(sort_by_x(s.drop_last()), s.last());
        lemma_insert_bounded(sort_by_x(s.drop_last()), s.last(), u64::MAX);
    }
}

/// Whether a monitor record stands at `x == k`.
pub open spec fn at_x(k: u64) -> spec_fn((u64, u64)) -> bool {
    |r: (u64, u64)| r.1 == k
}

proof fn lemma_insert_keeps(s: Seq<(u64, u64)>, e: (u64, u64), k: u64)
    ensures
        insert_by_x(s, e).to_multiset() == s.to_multiset().insert(e),
        insert_by_x(s, e).filter(at_x(k)) == s.push(e).filter(at_x(k)),
    decreases s.len(),
{
    broadcast use vstd::seq_lib::to_multiset_build, Seq::lemma_filter_push;

    if s.len() == 0 {
        assert(seq![e] =~= s.push(e));
    } else if s.last().1 > e.1 {
        let p = s.drop_last();
        lemma_insert_keeps(p, e, k);
        assert(s =~= p.push(s.last()));
        assert(insert_by_x(s, e).to_multiset() =~= s.to_multiset().insert(e));
    }
}

/// Sorting monitor records by `x` keeps them all, and keeps in their order
/// the records that stand at the same `x`: it is a stable sort.
pub proof fn lemma_sort_by_x_stable(s: Seq<(u64, u64)>, k: u64)
    ensures
        sort_by_x(s).to_multiset() == s.to_multiset(),
        sort_by_x(s).filter(at_x(k)) == s.filter(at_x(k)),
    decreases s.len(),
{
    broadcast use vstd::seq_lib::to_multiset_build, Seq::lemma_filter_push;

    if s.len() > 0 {
        let p = s.drop_last();
        lemma_sort_by_x_stable(p, k);
        lemma_insert_keeps(sort_by_x(p), s.last(), k);
        assert(s =~= p.push(s.last()));
    }
}

/// Orders monitor records `(id, x)` from left to right, keeping records at
/// the same `x` in their order, and gives their identifiers.
pub fn monitor_ids_by_x(records: &Vec<(u64, u64)>) -> (r: Vec<u64>)
    ensures
        r@ == ids_by_x(records@),
{
    let mut sorted: Vec<(u64, u64)> = Vec::new();
    let mut i: usize = 0;
    while i < records.len()
        invariant
            i <= records.len(),
            sorted@ == sort_by_x(records@.subrange(0, i as int)),
        decreases records.len() - i,
    {
        let e = records[i];
        let mut j: usize = sorted.len();
        while j > 0 && sorted[j - 1].1 > e.1
            invariant
                j <= sorted.len(),
                forall|k: int| j <= k < sorted.len() ==> sorted@[k].1 > e.1,
            decreases j,
        {
            j = j - 1;
        }
        proof {
            lemma_insert_at(sorted@, e, j as int);
            assert(records@.subrange(0, i + 1).drop_last() =~= records@.subrange(0, i as int));
        }
        sorted.insert(j, e);
        i = i + 1;
    }
    assert(records@.subrange(0, records.len() as int) =~= records@);
    let mut ids: Vec<u64> = Vec::new();
    let mut k: usize = 0;
    while k < sorted.len()
        invariant
            k <= sorted.len(),
            ids@ == sorted@.subrange(0, k as int).map_values(|r: (u64, u64)| r.0),
        decreases sorted.len() - k,
    {
        ids.push(sorted[k].0);
        k = k + 1;
        assert(sorted@.subrange(0, k as int).map_values(|r: (u64, u64)| r.0) =~= ids@);
    }
    assert(sorted@.subrange(0, k as int) =~= sorted@);
    ids
}

/// The monitor records `(id, x)` in the compositor's answer to the
/// monitors query: a JSON array of objects with unsigned integer `id` and `x`.
pub open spec fn records_outcome(text: Seq<char>) -> Result<Seq<(u64, u64)>, QueryError> {
    match json_u64_pairs(text, "id"@, "x"@) {
        None => Err(QueryError::InvalidJson),
        Some(None) => Err(QueryError::UnexpectedShape),
        Some(Some(records)) => Ok(records),
    }
}

/// The active workspace in the compositor's answer to the active workspace
/// query: a JSON object with an unsigned integer `id`.
pub open spec fn active_outcome(text: Seq<char>) -> Result<Workspace, QueryError> {
    match json_u64_field(text, "id"@) {
        None => Err(QueryError::InvalidJson),
        Some(None) => Err(QueryError::UnexpectedShape),
        Some(Some(id)) => Ok(decode(id)),
    }
}

/// Reads the monitor records `(id, x)` from the compositor's answer to
/// the monitors query.
pub fn monitor_records(text: &str) -> (r: Result<Vec<(u64, u64)>, QueryError>)
    ensures
        match r {
            Ok(v) => records_outcome(text@) == Ok::<Seq<(u64, u64)>, QueryError>(v@),
            Err(e) => records_outcome(text@) == Err::<Seq<(u64, u64)>, QueryError>(e),
        },
{
    proof {
        reveal_strlit("id");
        reveal_strlit("x");
    }
    match read_u64_pairs(text, "id", "x") {
        None => Err(QueryError::InvalidJson),
        Some(None) => Err(QueryError::UnexpectedShape),
        Some(Some(records)) => Ok(records),
    }
}

/// The monitor identifiers, left to right, from the compositor's answer to
/// the monitors query.
pub fn monitor_ids_from_json(text: &str) -> (r: Result<Vec<u64>, QueryError>)
    ensures
        match r {
            Ok(ids) => records_outcome(text@) is Ok && ids@ == ids_by_x(records_outcome(text@)->Ok_0),
            Err(e) => records_outcome(text@) == Err::<Seq<(u64, u64)>, QueryError>(e),
        },
{
    match monitor_records(text) {
        Ok(records) => Ok(monitor_ids_by_x(&records)),
        Err(e) => Err(e),
    }
}

/// The active workspace from the compositor's answer to the active
/// workspace query.
pub fn active_workspace_from_json(text: &str) -> (r: Result<Workspace, QueryError>)
    ensures
        r == active_outcome(text@),
{
    proof {
        reveal_strlit("id");
    }
    match read_u64_field(text, "id") {
        None => Err(QueryError::InvalidJson),
        Some(None) => Err(QueryError::UnexpectedShape),
        Some(Some(id)) => Ok(Workspace::from_id(id)),
    }
}

} // verus!
