use vstd::prelude::*;

verus! {

/// A named interval nested inside a work session.
#[derive(Debug, Clone, PartialEq, Eq)]
pub struct SubActivity {
    pub id: String,
    pub title: String,
    /// Milliseconds since the Unix epoch.
    pub start_time: i64,
    /// `None` while the activity is still running.
    pub end_time: Option<i64>,
}

/// A top-level tracked interval.
#[derive(Debug, Clone, PartialEq, Eq)]
pub struct WorkSession {
    pub id: String,
    /// Milliseconds since the Unix epoch.
    pub start_time: i64,
    /// `None` while the session is the active one.
    pub end_time: Option<i64>,
    /// Calendar date of `start_time` in `YYYY-MM-DD` form, fixed at creation.
    pub date: String,
    pub sub_activities: Vec<SubActivity>,
}

/// User settings, carried through the lifecycle operations unchanged.
#[derive(Debug, Clone, PartialEq, Eq)]
pub struct AppSettings {
    pub weekly_hours_target: u32,
    pub user_name: String,
}

/// The whole persisted document: the unit of load and save.
#[derive(Debug, Clone, PartialEq, Eq)]
pub struct AppData {
    pub sessions: Vec<WorkSession>,
    pub settings: AppSettings,
}

/// Body of a request to start a new session.
#[derive(Debug, Clone, PartialEq, Eq)]
pub struct StartRequest {
    pub title: String,
    pub start_time: i64,
}

pub open spec fn is_default_settings(s: AppSettings) -> bool {
    &&& s.weekly_hours_target == 40
    &&& s.user_name@ == "User"@
}

/// The document that stands in for a missing or unreadable file.
pub open spec fn is_default_document(d: AppData) -> bool {
    &&& d.sessions@.len() == 0
    &&& is_default_settings(d.settings)
}

impl Default for AppSettings {
    fn default() -> (r: AppSettings)
        ensures
            is_default_settings(r),
    {
        proof {
            reveal_strlit("User");
        }
        AppSettings { weekly_hours_target: 40, user_name: "User".to_owned() }
    }
}

impl Default for AppData {
    fn default() -> (r: AppData)
        ensures
            is_default_document(r),
    {
        AppData { sessions: Vec::new(), settings: AppSettings::default() }
    }
}

} // verus!
