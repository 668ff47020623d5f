use vstd::prelude::*;
use crate::model::{is_default_document, AppData};

verus! {

/// Recovery policy of the store: a document that could be read and parsed is
/// used as it is; a missing or unparseable one gives way to the default
/// document, and no error is raised.
pub fn recover_document(parsed: Option<AppData>) -> (r: AppData)
    ensures
        match parsed {
            Some(d) => r == d,
            None => is_default_document(r),
        },
{
    match parsed {
        Some(d) => d,
        None => AppData::default(),
    }
}

/// The raw text handed out for the stored file: its content when it exists,
/// and the empty JSON object otherwise.
pub fn raw_document(content: Option<String>) -> (r: String)
    ensures
        match content {
            Some(c) => r@ == c@,
            None => r@ == "{}"@,
        },
{
    match content {
        Some(c) => c,
        None => {
            proof {
                reveal_strlit("{}");
            }
            "{}".to_owned()
        },
    }
}

} // verus!
