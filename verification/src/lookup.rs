//! The small decisions of the MCP tools: which of two stored records is
//! nearest to a time, the length of the day that a news search spans, and
//! how several table names are listed.
use vstd::prelude::*;
use crate::rpc::StoredRecord;

verus! {

/// A day in milliseconds.
pub const DAY_MS: i64 = 86_400_000;

/// How far a record is from a time.
pub open spec fn distance(ts: int, t: int) -> int {
    if ts - t < 0 {
        t - ts
    } else {
        ts - t
    }
}

/// A lookup of at most one record: the record, none, or a database error.
pub type RecordLookup = Result<Option<StoredRecord>, String>;

/// The record nearest to `ts`, from the latest record at or before it and
/// the earliest record after it. When both exist the nearer one is taken, the
/// earlier one on a tie; when one exists it is taken; otherwise the first
/// error, or none.
pub open spec fn nearest(ts: i64, at_or_before: RecordLookup, after: RecordLookup) -> RecordLookup {
    match (at_or_before, after) {
        (Ok(Some(a)), Ok(Some(b))) => if distance(ts as int, a.timestamp as int) <= distance(
            ts as int,
            b.timestamp as int,
        ) {
            Ok(Some(a))
        } else {
            Ok(Some(b))
        },
        (Ok(Some(a)), _) => Ok(Some(a)),
        (_, Ok(Some(b))) => Ok(Some(b)),
        (Err(e), _) => Err(e),
        (_, Err(e)) => Err(e),
        _ => Ok(None),
    }
}

/// The distances of two found records from `ts` are computed in `i64`:
/// each difference fits one and is not `i64::MIN`.
pub open spec fn nearest_in_range(ts: i64, at_or_before: RecordLookup, after: RecordLookup) -> bool {
    match (at_or_before, after) {
        (Ok(Some(a)), Ok(Some(b))) => i64::MIN < ts - a.timestamp <= i64::MAX && i64::MIN < ts
            - b.timestamp <= i64::MAX,
        _ => true,
    }
}

/// `|ts - t|`.
fn distance_of(ts: i64, t: i64) -> (r: i64)
    requires
        i64::MIN < ts - t <= i64::MAX,
    ensures
        r == distance(ts as int, t as int),
{
    let d = ts - t;
    if d < 0 {
        -d
    } else {
        d
    }
}

/// The record nearest to `ts` (see `nearest`).
pub fn choose_nearest(ts: i64, at_or_before: RecordLookup, after: RecordLookup) -> (r: RecordLookup)
    requires
        nearest_in_range(ts, at_or_before, after),
    ensures
        r == nearest(ts, at_or_before, after),
{
    match (at_or_before, after) {
        (Ok(Some(a)), Ok(Some(b))) => {
            if distance_of(ts, a.timestamp) <= distance_of(ts, b.timestamp) {
                Ok(Some(a))
            } else {
                Ok(Some(b))
            }
        },
        (Ok(Some(a)), _) => Ok(Some(a)),
        (_, Ok(Some(b))) => Ok(Some(b)),
        (Err(e), _) => Err(e),
        (_, Err(e)) => Err(e),
        _ => Ok(None),
    }
}

/// The nearest record is one of the two found, at least as near to `ts` as
/// the other; a record is found whenever one of the lookups found one, and
/// an error is reported only when neither did.
pub proof fn nearest_law(ts: i64, at_or_before: RecordLookup, after: RecordLookup)
    ensures
        (nearest(ts, at_or_before, after) matches Ok(Some(r))) <==> (at_or_before matches Ok(Some(_))
            || after matches Ok(Some(_))),
        nearest(ts, at_or_before, after) matches Ok(Some(r)) ==> (at_or_before == Ok::<
            Option<StoredRecord>,
            String,
        >(Some(r)) || after == Ok::<Option<StoredRecord>, String>(Some(r))),
        at_or_before matches Ok(Some(a)) ==> (after matches Ok(Some(b)) ==> (nearest(
            ts,
            at_or_before,
            after,
        ) matches Ok(Some(r)) && distance(ts as int, r.timestamp as int) <= distance(
            ts as int,
            a.timestamp as int,
        ) && distance(ts as int, r.timestamp as int) <= distance(ts as int, b.timestamp as int))),
        nearest(ts, at_or_before, after) is Err ==> (at_or_before is Err || after is Err),
{
}

/// The text of several names separated by `sep`.
pub open spec fn joined(parts: Seq<Seq<char>>, sep: Seq<char>) -> Seq<char>
    decreases parts.len(),
{
    if parts.len() == 0 {
        Seq::empty()
    } else if parts.len() == 1 {
        parts[0]
    } else {
        joined(parts.drop_last(), sep) + sep + parts.last()
    }
}

/// The names of `v` separated by `sep`.
pub fn join_names(v: &Vec<String>, sep: &str) -> (r: String)
    ensures
        r@ == joined(v@.map_values(|s: String| s@), sep@),
{
    let ghost parts = v@.map_values(|s: String| s@);
    let mut out = String::new();
    assert(parts.take(0) =~= Seq::<Seq<char>>::empty());
    let mut i: usize = 0;
    while i < v.len()
        invariant
            i <= v@.len(),
            parts == v@.map_values(|s: String| s@),
            out@ =~= joined(parts.take(i as int), sep@),
        decreases v@.len() - i,
    {
        if i != 0 {
            out.append(sep);
        }
        out.append(v[i].as_str());
        assert(parts.take(i + 1).drop_last() =~= parts.take(i as int));
        i = i + 1;
    }
    assert(parts.take(v@.len() as int) =~= parts);
    out
}

} // verus!
