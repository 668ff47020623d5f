use work_tracker::calendar::text_precedes;
use work_tracker::model::{AppData, AppSettings, StartRequest, SubActivity, WorkSession};
use work_tracker::sessions::{week_matches, StartError};
use work_tracker::store::{raw_document, recover_document};

fn activity(id: &str, title: &str, start: i64, end: Option<i64>) -> SubActivity {
    SubActivity { id: id.to_string(), title: title.to_string(), start_time: start, end_time: end }
}

fn session(id: &str, date: &str, start: i64, end: Option<i64>) -> WorkSession {
    WorkSession {
        id: id.to_string(),
        start_time: start,
        end_time: end,
        date: date.to_string(),
        sub_activities: vec![activity(&format!("{}-a", id), "work", start, end)],
    }
}

fn document(sessions: Vec<WorkSession>) -> AppData {
    AppData { sessions, settings: AppSettings::default() }
}

fn ids(sessions: &[WorkSession]) -> Vec<String> {
    sessions.iter().map(|s| s.id.clone()).collect()
}

#[test]
fn default_document_is_empty_with_default_settings() {
    let d = AppData::default();
    assert!(d.sessions.is_empty());
    assert_eq!(d.settings.weekly_hours_target, 40);
    assert_eq!(d.settings.user_name, "User");
}

#[test]
fn clear_day_twice_matches_once() {
    let base = vec![
        session("a", "2024-06-01", 1, Some(2)),
        session("b", "2024-06-02", 3, Some(4)),
        session("c", "2024-06-01", 5, None),
    ];
    let mut once = document(base.clone());
    once.clear_day(&"2024-06-01".to_string());
    let mut twice = document(base);
    twice.clear_day(&"2024-06-01".to_string());
    twice.clear_day(&"2024-06-01".to_string());
    assert_eq!(once, twice);
    assert_eq!(ids(&once.sessions), vec!["b"]);
}

#[test]
fn start_closes_open_session_and_its_activities() {
    let mut open = session("s1", "2024-06-01", 1_717_200_000_000, None);
    open.sub_activities.push(activity("s1-b", "planning", 1_717_200_100_000, None));
    open.sub_activities.push(activity("s1-c", "done", 1_717_200_000_000, Some(1_717_200_050_000)));
    let mut d = document(vec![open]);
    let r = d.start_new_session(StartRequest { title: "x".to_string(), start_time: 1_717_300_000_000 });
    assert_eq!(r, Ok(()));
    assert_eq!(d.sessions.len(), 2);
    let s1 = &d.sessions[0];
    let closed_at = s1.end_time.expect("the earlier session is closed");
    assert_eq!(s1.sub_activities[0].end_time, Some(closed_at));
    assert_eq!(s1.sub_activities[1].end_time, Some(closed_at));
    assert_eq!(s1.sub_activities[2].end_time, Some(1_717_200_050_000));
    let open_count = d.sessions.iter().filter(|s| s.end_time.is_none()).count();
    assert_eq!(open_count, 1);
    let new = &d.sessions[1];
    assert_eq!(new.end_time, None);
    assert_eq!(new.start_time, 1_717_300_000_000);
    assert_eq!(new.date, "2024-06-02");
    assert_eq!(new.sub_activities.len(), 1);
    assert_eq!(new.sub_activities[0].title, "x");
    assert_eq!(new.sub_activities[0].end_time, None);
    assert_eq!(new.id.len(), 36);
    assert_eq!(new.sub_activities[0].id.len(), 36);
    assert_ne!(new.id, new.sub_activities[0].id);
}

#[test]
fn start_with_given_clock_and_ids() {
    let mut d = document(vec![session("old", "2024-01-01", 10, None)]);
    let r = d.start_new_session_with(
        StartRequest { title: "plan".to_string(), start_time: 1_735_603_200_000 },
        99,
        "sid".to_string(),
        "aid".to_string(),
    );
    assert_eq!(r, Ok(()));
    assert_eq!(d.sessions[0].end_time, Some(99));
    assert_eq!(d.sessions[0].sub_activities[0].end_time, Some(99));
    let new = &d.sessions[1];
    assert_eq!(new.id, "sid");
    assert_eq!(new.date, "2024-12-31");
    assert_eq!(new.sub_activities[0].id, "aid");
    assert_eq!(new.sub_activities[0].start_time, 1_735_603_200_000);
}

#[test]
fn start_before_epoch_uses_utc_date() {
    let mut d = AppData::default();
    let r = d.start_new_session_with(
        StartRequest { title: "t".to_string(), start_time: -1 },
        0,
        "s".to_string(),
        "a".to_string(),
    );
    assert_eq!(r, Ok(()));
    assert_eq!(d.sessions[0].date, "1969-12-31");
}

#[test]
fn start_with_unrepresentable_time_is_rejected() {
    let mut d = document(vec![session("open", "2024-06-01", 1, None)]);
    let before = d.clone();
    let r = d.start_new_session(StartRequest { title: "x".to_string(), start_time: i64::MAX });
    assert_eq!(r, Err(StartError::BadTimestamp));
    assert_eq!(d, before);
    let r = d.start_new_session_with(
        StartRequest { title: "x".to_string(), start_time: i64::MIN },
        5,
        "s".to_string(),
        "a".to_string(),
    );
    assert_eq!(r, Err(StartError::BadTimestamp));
    assert_eq!(d, before);
}

#[test]
fn overwrite_then_get_all_round_trips() {
    let mut d = document(vec![session("a", "2024-06-01", 1, Some(2))]);
    let mut replacement = document(vec![session("z", "2023-01-01", 7, None)]);
    replacement.settings.weekly_hours_target = 30;
    replacement.settings.user_name = "Ana".to_string();
    d.overwrite_all(replacement.clone());
    assert_eq!(d.get_all(), &replacement);
}

#[test]
fn week_filter_uses_iso_week_year() {
    let d = document(vec![
        session("dec31", "2024-12-31", 1, Some(2)),
        session("bad", "not-a-date", 3, Some(4)),
        session("dec23", "2024-12-23", 5, Some(6)),
    ]);
    assert_eq!(ids(&d.clone().get_by_week(2025, 1)), vec!["dec31"]);
    assert!(d.clone().get_by_week(2024, 53).is_empty());
    assert_eq!(ids(&d.get_by_week(2024, 52)), vec!["dec23"]);
}

#[test]
fn day_filter_is_exact() {
    let d = document(vec![
        session("a", "2024-06-01", 1, Some(2)),
        session("b", "2024-06-1", 3, Some(4)),
        session("c", "2024-06-01 ", 5, Some(6)),
        session("d", "2024-06-01", 7, None),
    ]);
    let got = d.get_by_day(&"2024-06-01".to_string());
    assert_eq!(ids(&got), vec!["a", "d"]);
    assert!(got.iter().all(|s| s.date == "2024-06-01"));
}

#[test]
fn clear_range_includes_both_bounds() {
    let mut d = document(vec![
        session("before", "2023-12-31", 1, Some(2)),
        session("first", "2024-01-01", 3, Some(4)),
        session("mid", "2024-01-15", 5, Some(6)),
        session("last", "2024-01-31", 7, Some(8)),
        session("after", "2024-02-01", 9, Some(10)),
    ]);
    d.clear_range(&"2024-01-01".to_string(), &"2024-01-31".to_string());
    assert_eq!(ids(&d.sessions), vec!["before", "after"]);
    assert_eq!(d.settings, AppSettings::default());
}

#[test]
fn append_with_known_id_replaces_whole_session() {
    let mut d = document(vec![
        session("a", "2024-06-01", 1, Some(2)),
        session("b", "2024-06-02", 3, None),
        session("c", "2024-06-03", 5, Some(6)),
    ]);
    let mut edited = session("b", "2024-06-09", 30, Some(40));
    edited.sub_activities.clear();
    d.append_session(edited.clone());
    assert_eq!(d.sessions.len(), 3);
    assert_eq!(ids(&d.sessions), vec!["a", "c", "b"]);
    assert_eq!(d.sessions[2], edited);
}

#[test]
fn append_with_new_id_adds_session() {
    let mut d = document(vec![session("a", "2024-06-01", 1, Some(2))]);
    d.append_session(session("n", "2024-06-05", 9, None));
    assert_eq!(ids(&d.sessions), vec!["a", "n"]);
}

#[test]
fn clear_all_keeps_settings() {
    let mut d = document(vec![session("a", "2024-06-01", 1, Some(2))]);
    d.settings.weekly_hours_target = 12;
    d.clear_all();
    assert!(d.sessions.is_empty());
    assert_eq!(d.settings.weekly_hours_target, 12);
}

#[test]
fn unreadable_document_recovers_to_default() {
    let d = recover_document(None);
    assert!(d.sessions.is_empty());
    assert_eq!(d.settings, AppSettings::default());
    let kept = document(vec![session("a", "2024-06-01", 1, Some(2))]);
    assert_eq!(recover_document(Some(kept.clone())), kept);
}

#[test]
fn raw_document_defaults_to_empty_object() {
    assert_eq!(raw_document(None), "{}");
    assert_eq!(raw_document(Some("[1]".to_string())), "[1]");
}

#[test]
fn text_order_is_byte_order() {
    assert!(text_precedes("2024-01-01", "2024-01-02"));
    assert!(!text_precedes("2024-01-02", "2024-01-01"));
    assert!(!text_precedes("2024-01-01", "2024-01-01"));
    assert!(text_precedes("2024", "2024-01"));
    assert!(!text_precedes("", ""));
    assert!(text_precedes("Z", "a"));
}

#[test]
fn week_matching_compares_year_and_week() {
    assert!(week_matches(Some((2025, 1)), 2025, 1));
    assert!(!week_matches(Some((2025, 1)), 2024, 1));
    assert!(!week_matches(Some((2025, 2)), 2025, 1));
    assert!(!week_matches(None, 2025, 1));
}

#[test]
fn open_session_on_given_date() {
    let mut d = document(vec![
        session("done", "2024-03-01", 1, Some(2)),
        session("running", "2024-03-02", 3, None),
    ]);
    d.open_session(
        StartRequest { title: "next".to_string(), start_time: 50 },
        "2024-03-03".to_string(),
        70,
        "sid".to_string(),
        "aid".to_string(),
    );
    assert_eq!(d.sessions.len(), 3);
    assert_eq!(d.sessions[0], session("done", "2024-03-01", 1, Some(2)));
    assert_eq!(d.sessions[1].end_time, Some(70));
    assert_eq!(d.sessions[1].sub_activities[0].end_time, Some(70));
    assert_eq!(d.sessions[2].date, "2024-03-03");
    assert_eq!(d.sessions[2].id, "sid");
    assert_eq!(d.sessions[2].end_time, None);
    assert_eq!(d.sessions[2].sub_activities[0].title, "next");
}
