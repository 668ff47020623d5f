use vstd::prelude::*;
use crate::calendar::{
    iso_week_of, iso_week_of_date, now_millis, text_lt, text_precedes, utc_date_of_millis,
    utc_date_string, DATE_SAFE_MILLIS,
};
use crate::ids::fresh_id;
use crate::model::{AppData, StartRequest, SubActivity, WorkSession};

verus! {

/// Why a new session could not be started.
#[derive(Debug, Clone, Copy, PartialEq, Eq, Structural)]
pub enum StartError {
    /// The start time has no calendar date.
    BadTimestamp,
}

/// Sessions recorded on exactly the given date string.
pub open spec fn sessions_on_day(s: Seq<WorkSession>, date: Seq<char>) -> Seq<WorkSession> {
    s.filter(|x: WorkSession| x.date@ == date)
}

/// Sessions whose date falls in the given ISO week of the given ISO
/// week-numbering year; a date that does not parse falls in no week.
pub open spec fn sessions_in_week(s: Seq<WorkSession>, year: i32, week: u32) -> Seq<WorkSession> {
    s.filter(|x: WorkSession| iso_week_of(x.date@) == Some((year, week)))
}

/// Holds of the sessions not recorded on `date`.
pub open spec fn not_on_day(date: Seq<char>) -> spec_fn(WorkSession) -> bool {
    |x: WorkSession| x.date@ != date
}

/// Sessions left after removing those of the given date.
pub open spec fn without_day(s: Seq<WorkSession>, date: Seq<char>) -> Seq<WorkSession> {
    s.filter(not_on_day(date))
}

/// Whether a date lies in the inclusive range `[start, end]` of the order of `str`.
pub open spec fn date_in_range(date: Seq<char>, start: Seq<char>, end: Seq<char>) -> bool {
    !text_lt(date, start) && !text_lt(end, date)
}

/// Sessions left after removing those dated within `[start, end]`.
pub open spec fn without_range(s: Seq<WorkSession>, start: Seq<char>, end: Seq<char>) -> Seq<
    WorkSession,
> {
    s.filter(|x: WorkSession| !date_in_range(x.date@, start, end))
}

/// Sessions after an upsert: every session sharing the id is dropped and the
/// given one is appended verbatim.
pub open spec fn upserted(s: Seq<WorkSession>, session: WorkSession) -> Seq<WorkSession> {
    s.filter(other_id(session.id@)).push(session)
}

/// Holds of the sessions whose id differs from `id`.
pub open spec fn other_id(id: Seq<char>) -> spec_fn(WorkSession) -> bool {
    |x: WorkSession| x.id@ != id
}

/// A sub-activity closed at `now` if it was still open.
pub open spec fn closed_activity(a: SubActivity, now: i64) -> SubActivity {
    if a.end_time is None {
        SubActivity { id: a.id, title: a.title, start_time: a.start_time, end_time: Some(now) }
    } else {
        a
    }
}

/// `after` is `before` closed at `now`: an open session gets `now` as its end
/// and so does each of its open sub-activities; a closed session is untouched.
pub open spec fn closed_at(before: WorkSession, after: WorkSession, now: i64) -> bool {
    if before.end_time is Some {
        after == before
    } else {
        &&& after.id == before.id
        &&& after.start_time == before.start_time
        &&& after.end_time == Some(now)
        &&& after.date == before.date
        &&& after.sub_activities@ == before.sub_activities@.map_values(
            |a: SubActivity| closed_activity(a, now),
        )
    }
}

/// Every session of `after` is the one of `before` at the same place, closed at `now`.
pub open spec fn all_closed_at(before: Seq<WorkSession>, after: Seq<WorkSession>, now: i64) -> bool {
    &&& after.len() == before.len()
    &&& forall|i: int| 0 <= i < before.len() ==> closed_at(before[i], after[i], now)
}

/// `s` is a freshly started session: open, with the given id, start and date,
/// and one open sub-activity carrying the title.
pub open spec fn is_fresh_session(
    s: WorkSession,
    title: Seq<char>,
    start_time: i64,
    date: Seq<char>,
    session_id: Seq<char>,
    activity_id: Seq<char>,
) -> bool {
    &&& s.id@ == session_id
    &&& s.start_time == start_time
    &&& s.end_time is None
    &&& s.date@ == date
    &&& s.sub_activities@.len() == 1
    &&& s.sub_activities@[0].id@ == activity_id
    &&& s.sub_activities@[0].title@ == title
    &&& s.sub_activities@[0].start_time == start_time
    &&& s.sub_activities@[0].end_time is None
}

/// `after` is `before` once a session dated `date` was started: the former
/// sessions are closed at `now` and the new session comes last.
pub open spec fn started_on(
    before: AppData,
    after: AppData,
    title: Seq<char>,
    start_time: i64,
    date: Seq<char>,
    now: i64,
    session_id: Seq<char>,
    activity_id: Seq<char>,
) -> bool {
    &&& after.settings == before.settings
    &&& after.sessions@.len() == before.sessions@.len() + 1
    &&& all_closed_at(before.sessions@, after.sessions@.drop_last(), now)
    &&& is_fresh_session(after.sessions@.last(), title, start_time, date, session_id, activity_id)
}

/// As `started_on`, with the UTC date of `start_time`.
pub open spec fn started(
    before: AppData,
    after: AppData,
    title: Seq<char>,
    start_time: i64,
    now: i64,
    session_id: Seq<char>,
    activity_id: Seq<char>,
) -> bool {
    utc_date_of_millis(start_time) matches Some(date) && started_on(
        before,
        after,
        title,
        start_time,
        date,
        now,
        session_id,
        activity_id,
    )
}

/// The last session is the only open one.
pub open spec fn only_last_open(s: Seq<WorkSession>) -> bool {
    &&& s.len() > 0
    &&& forall|i: int| 0 <= i < s.len() ==> (s[i].end_time is None <==> i == s.len() - 1)
}

/// The document after `overwrite_all(data)`, whatever it was before.
pub open spec fn overwritten(before: AppData, data: AppData) -> AppData {
    data
}

fn sessions_dated(v: Vec<WorkSession>, date: &String) -> (r: Vec<WorkSession>)
    ensures
        r@ == sessions_on_day(v@, date@),
{
    let mut out: Vec<WorkSession> = Vec::new();
    let ghost all = v@;
    for s in iter: v.into_iter()
        invariant
            iter.seq() == all,
            out@ == sessions_on_day(all.take(iter.index() as int), date@),
    {
        proof {
            reveal(Seq::filter);
            assert(all.take(iter.index() + 1).drop_last() == all.take(iter.index() as int));
        }
        if s.date == *date {
            out.push(s);
        }
    }
    proof {
        assert(all.take(all.len() as int) == all);
    }
    out
}

/// Whether an ISO (week-numbering year, week) pair, when there is one, is
/// the given one.
pub fn week_matches(iso: Option<(i32, u32)>, year: i32, week: u32) -> (r: bool)
    ensures
        r == (iso == Some((year, week))),
{
    match iso {
        Some((y, w)) => y == year && w == week,
        None => false,
    }
}

fn sessions_of_week(v: Vec<WorkSession>, year: i32, week: u32) -> (r: Vec<WorkSession>)
    ensures
        r@ == sessions_in_week(v@, year, week),
{
    let mut out: Vec<WorkSession> = Vec::new();
    let ghost all = v@;
    for s in iter: v.into_iter()
        invariant
            iter.seq() == all,
            out@ == sessions_in_week(all.take(iter.index() as int), year, week),
    {
        proof {
            reveal(Seq::filter);
            assert(all.take(iter.index() + 1).drop_last() == all.take(iter.index() as int));
        }
        if week_matches(iso_week_of_date(s.date.as_str()), year, week) {
            out.push(s);
        }
    }
    proof {
        assert(all.take(all.len() as int) == all);
    }
    out
}

fn sessions_not_dated(v: Vec<WorkSession>, date: &String) -> (r: Vec<WorkSession>)
    ensures
        r@ == without_day(v@, date@),
{
    let mut out: Vec<WorkSession> = Vec::new();
    let ghost all = v@;
    for s in iter: v.into_iter()
        invariant
            iter.seq() == all,
            out@ == without_day(all.take(iter.index() as int), date@),
    {
        proof {
            reveal(Seq::filter);
            assert(all.take(iter.index() + 1).drop_last() == all.take(iter.index() as int));
        }
        if s.date != *date {
            out.push(s);
        }
    }
    proof {
        assert(all.take(all.len() as int) == all);
    }
    out
}

fn sessions_outside_range(v: Vec<WorkSession>, start: &String, end: &String) -> (r: Vec<
    WorkSession,
>)
    ensures
        r@ == without_range(v@, start@, end@),
{
    let mut out: Vec<WorkSession> = Vec::new();
    let ghost all = v@;
    for s in iter: v.into_iter()
        invariant
            iter.seq() == all,
            out@ == without_range(all.take(iter.index() as int), start@, end@),
    {
        proof {
            reveal(Seq::filter);
            assert(all.take(iter.index() + 1).drop_last() == all.take(iter.index() as int));
        }
        let d = s.date.as_str();
        if text_precedes(d, start.as_str()) || text_precedes(end.as_str(), d) {
            out.push(s);
        }
    }
    proof {
        assert(all.take(all.len() as int) == all);
    }
    out
}

fn sessions_without_id(v: Vec<WorkSession>, id: &String) -> (r: Vec<WorkSession>)
    ensures
        r@ == v@.filter(other_id(id@)),
{
    let mut out: Vec<WorkSession> = Vec::new();
    let ghost all = v@;
    for s in iter: v.into_iter()
        invariant
            iter.seq() == all,
            out@ == all.take(iter.index() as int).filter(other_id(id@)),
    {
        proof {
            reveal(Seq::filter);
            assert(all.take(iter.index() + 1).drop_last() == all.take(iter.index() as int));
        }
        if s.id != *id {
            out.push(s);
        }
    }
    proof {
        assert(all.take(all.len() as int) == all);
    }
    out
}

fn close_activities(v: Vec<SubActivity>, now: i64) -> (r: Vec<SubActivity>)
    ensures
        r@ == v@.map_values(|a: SubActivity| closed_activity(a, now)),
{
    let mut out: Vec<SubActivity> = Vec::new();
    let ghost all = v@;
    for a in iter: v.into_iter()
        invariant
            iter.seq() == all,
            out@ == all.take(iter.index() as int).map_values(
                |a: SubActivity| closed_activity(a, now),
            ),
    {
        proof {
            assert(all.take(iter.index() + 1) == all.take(iter.index() as int).push(
                all[iter.index() as int],
            ));
        }
        let mut a = a;
        if a.end_time.is_none() {
            a.end_time = Some(now);
        }
        out.push(a);
        proof {
            assert(out@ =~= all.take(iter.index() + 1).map_values(
                |a: SubActivity| closed_activity(a, now),
            ));
        }
    }
    proof {
        assert(all.take(all.len() as int) == all);
    }
    out
}

fn close_sessions(v: Vec<WorkSession>, now: i64) -> (r: Vec<WorkSession>)
    ensures
        all_closed_at(v@, r@, now),
{
    let mut out: Vec<WorkSession> = Vec::new();
    let ghost all = v@;
    for s in iter: v.into_iter()
        invariant
            iter.seq() == all,
            all_closed_at(all.take(iter.index() as int), out@, now),
    {
        let mut s = s;
        if s.end_time.is_none() {
            s.end_time = Some(now);
            let mut subs: Vec<SubActivity> = Vec::new();
            core::mem::swap(&mut s.sub_activities, &mut subs);
            s.sub_activities = close_activities(subs, now);
        }
        out.push(s);
    }
    proof {
        assert(all.take(all.len() as int) == all);
    }
    out
}

impl AppData {
    /// The whole document.
    pub fn get_all(&self) -> (r: &AppData)
        ensures
            *r == *self,
    {
        self
    }

    /// Sessions whose `date` equals `date` exactly, in document order.
    pub fn get_by_day(self, date: &String) -> (r: Vec<WorkSession>)
        ensures
            r@ == sessions_on_day(self.sessions@, date@),
    {
        sessions_dated(self.sessions, date)
    }

    /// Sessions whose date lies in ISO week `week` of ISO week-numbering year
    /// `year`, in document order; dates that do not parse are left out.
    pub fn get_by_week(self, year: i32, week: u32) -> (r: Vec<WorkSession>)
        ensures
            r@ == sessions_in_week(self.sessions@, year, week),
    {
        sessions_of_week(self.sessions, year, week)
    }

    /// Replaces the whole document.
    pub fn overwrite_all(&mut self, data: AppData)
        ensures
            *final(self) == overwritten(*old(self), data),
    {
        *self = data;
    }

    /// Removes every session and keeps the settings.
    pub fn clear_all(&mut self)
        ensures
            final(self).sessions@.len() == 0,
            final(self).settings == old(self).settings,
    {
        self.sessions = Vec::new();
    }

    /// Removes the sessions whose `date` equals `date`.
    pub fn clear_day(&mut self, date: &String)
        ensures
            final(self).sessions@ == without_day(old(self).sessions@, date@),
            final(self).settings == old(self).settings,
    {
        let mut taken: Vec<WorkSession> = Vec::new();
        core::mem::swap(&mut self.sessions, &mut taken);
        self.sessions = sessions_not_dated(taken, date);
    }

    /// Removes the sessions dated within `[start, end]`, bounds included,
    /// in the order of `str`.
    pub fn clear_range(&mut self, start: &String, end: &String)
        ensures
            final(self).sessions@ == without_range(old(self).sessions@, start@, end@),
            final(self).settings == old(self).settings,
    {
        let mut taken: Vec<WorkSession> = Vec::new();
        core::mem::swap(&mut self.sessions, &mut taken);
        self.sessions = sessions_outside_range(taken, start, end);
    }

    /// Upsert by id: drops every session with the id of `session`, then
    /// appends `session` as given.
    pub fn append_session(&mut self, session: WorkSession)
        ensures
            final(self).sessions@ == upserted(old(self).sessions@, session),
            final(self).settings == old(self).settings,
    {
        let mut taken: Vec<WorkSession> = Vec::new();
        core::mem::swap(&mut self.sessions, &mut taken);
        let mut kept = sessions_without_id(taken, &session.id);
        kept.push(session);
        self.sessions = kept;
    }

    /// Closes at `now` every open session, and every open sub-activity of those.
    pub fn close_open_sessions(&mut self, now: i64)
        ensures
            all_closed_at(old(self).sessions@, final(self).sessions@, now),
            final(self).settings == old(self).settings,
    {
        let mut taken: Vec<WorkSession> = Vec::new();
        core::mem::swap(&mut self.sessions, &mut taken);
        self.sessions = close_sessions(taken, now);
    }

    /// Closes at `now` whatever was open, then appends an open session dated
    /// `date` that starts at `request.start_time` with one open sub-activity
    /// titled `request.title`.
    pub fn open_session(
        &mut self,
        request: StartRequest,
        date: String,
        now: i64,
        session_id: String,
        activity_id: String,
    )
        ensures
            started_on(
                *old(self),
                *final(self),
                request.title@,
                request.start_time,
                date@,
                now,
                session_id@,
                activity_id@,
            ),
    {
        self.close_open_sessions(now);
        let activity = SubActivity {
            id: activity_id,
            title: request.title,
            start_time: request.start_time,
            end_time: None,
        };
        let session = WorkSession {
            id: session_id,
            start_time: request.start_time,
            end_time: None,
            date,
            sub_activities: vec![activity],
        };
        let ghost mid = self.sessions@;
        self.sessions.push(session);
        proof {
            assert(self.sessions@.drop_last() == mid);
        }
    }

    /// Starts a session at `request.start_time` with one sub-activity titled
    /// `request.title`, after closing at `now` whatever was open. Fails, and
    /// leaves the document as it was, when the start time has no date.
    pub fn start_new_session_with(
        &mut self,
        request: StartRequest,
        now: i64,
        session_id: String,
        activity_id: String,
    ) -> (r: Result<(), StartError>)
        ensures
            match r {
                Ok(()) => started(
                    *old(self),
                    *final(self),
                    request.title@,
                    request.start_time,
                    now,
                    session_id@,
                    activity_id@,
                ),
                Err(e) => e == StartError::BadTimestamp && utc_date_of_millis(
                    request.start_time,
                ) is None && *final(self) == *old(self),
            },
            r is Ok <==> utc_date_of_millis(request.start_time) is Some,
    {
        let date = match utc_date_string(request.start_time) {
            Some(d) => d,
            None => return Err(StartError::BadTimestamp),
        };
        self.open_session(request, date, now, session_id, activity_id);
        Ok(())
    }

    /// Starts a session as `start_new_session_with` does, closing what was
    /// open at the current time and giving the session and its sub-activity
    /// fresh identifiers. Afterwards the new session is the only open one.
    pub fn start_new_session(&mut self, request: StartRequest) -> (r: Result<(), StartError>)
        ensures
            r is Ok <==> utc_date_of_millis(request.start_time) is Some,
            -DATE_SAFE_MILLIS <= request.start_time <= DATE_SAFE_MILLIS ==> r is Ok,
            r is Err ==> *final(self) == *old(self),
            r is Ok ==> exists|now: i64, session_id: Seq<char>, activity_id: Seq<char>|
                session_id.len() == 36 && activity_id.len() == 36 && started(
                    *old(self),
                    *final(self),
                    request.title@,
                    request.start_time,
                    now,
                    session_id,
                    activity_id,
                ),
            r is Ok ==> only_last_open(final(self).sessions@),
    {
        let date = match utc_date_string(request.start_time) {
            Some(d) => d,
            None => return Err(StartError::BadTimestamp),
        };
        let now = now_millis();
        let session_id = fresh_id();
        let activity_id = fresh_id();
        let ghost (sid, aid) = (session_id@, activity_id@);
        let ghost title = request.title@;
        let ghost before = *self;
        self.open_session(request, date, now, session_id, activity_id);
        proof {
            assert(started(before, *self, title, request.start_time, now, sid, aid));
            let s = self.sessions@;
            assert forall|i: int| 0 <= i < s.len() implies (s[i].end_time is None <==> i == s.len()
                - 1) by {
                if i < s.len() - 1 {
                    assert(closed_at(before.sessions@[i], s.drop_last()[i], now));
                }
            }
        }
        Ok(())
    }
}

} // verus!
