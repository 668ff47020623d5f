use vstd::prelude::*;
use crate::model::{AppData, WorkSession};
use crate::sessions::{not_on_day, other_id, overwritten, upserted, without_day};

verus! {

proof fn lemma_filter_idempotent<A>(s: Seq<A>, p: spec_fn(A) -> bool)
    ensures
        s.filter(p).filter(p) == s.filter(p),
    decreases s.len(),
{
    reveal(Seq::filter);
    if s.len() > 0 {
        lemma_filter_idempotent(s.drop_last(), p);
        let f = s.drop_last().filter(p);
        if p(s.last()) {
            assert(f.push(s.last()).drop_last() == f);
        }
    }
}

proof fn lemma_filter_keeps_all<A>(s: Seq<A>, p: spec_fn(A) -> bool)
    requires
        forall|j: int| 0 <= j < s.len() ==> p(s[j]),
    ensures
        s.filter(p) == s,
    decreases s.len(),
{
    reveal(Seq::filter);
    if s.len() > 0 {
        lemma_filter_keeps_all(s.drop_last(), p);
        assert(s.drop_last().push(s.last()) == s);
    }
}

proof fn lemma_filter_drops_one<A>(s: Seq<A>, p: spec_fn(A) -> bool, k: int)
    requires
        0 <= k < s.len(),
        !p(s[k]),
        forall|j: int| 0 <= j < s.len() && j != k ==> p(s[j]),
    ensures
        s.filter(p) == s.remove(k),
    decreases s.len(),
{
    reveal(Seq::filter);
    if k == s.len() - 1 {
        lemma_filter_keeps_all(s.drop_last(), p);
        assert(s.remove(k) == s.drop_last());
    } else {
        lemma_filter_drops_one(s.drop_last(), p, k);
        assert(s.remove(k) == s.drop_last().remove(k).push(s.last()));
    }
}

/// Clearing a day twice leaves the same sessions as clearing it once.
pub proof fn lemma_clear_day_idempotent(sessions: Seq<WorkSession>, date: Seq<char>)
    ensures
        without_day(without_day(sessions, date), date) == without_day(sessions, date),
{
    lemma_filter_idempotent(sessions, not_on_day(date));
}

/// Appending a session whose id is held by exactly one stored session
/// replaces that session: the count is unchanged, the others keep their
/// order, and the stored copy gives way to the new one whole.
pub proof fn lemma_append_replaces(sessions: Seq<WorkSession>, session: WorkSession, k: int)
    requires
        0 <= k < sessions.len(),
        sessions[k].id@ == session.id@,
        forall|j: int| 0 <= j < sessions.len() && j != k ==> sessions[j].id@ != session.id@,
    ensures
        upserted(sessions, session).len() == sessions.len(),
        upserted(sessions, session) == sessions.remove(k).push(session),
{
    lemma_filter_drops_one(sessions, other_id(session.id@), k);
}

/// Reading the document back after overwriting it gives what was written.
pub proof fn lemma_overwrite_then_get_all(before: AppData, data: AppData)
    ensures
        overwritten(before, data) == data,
{
}

} // verus!
