//! Choosing the persistent check-for-update id: a previously stored id is
//! kept when its file's contents, trimmed, are non-empty; otherwise a fresh
//! UUID is drawn and must be persisted.

use vstd::prelude::*;
use vstd::string::StrSliceExecFns;

use crate::text::{spec_trim, trim_ascii};

verus! {

/// Relies on uuid::Uuid::new_v4 and its Display impl: a fresh random UUID,
/// formatted hyphenated and lowercase — always 36 characters.
#[verifier::external_body]
fn fresh_cfu_id() -> (r: String)
    ensures
        r@.len() == 36,
{
    uuid::Uuid::new_v4().to_string()
}

/// Decide the persistent check-for-update id from what was read from its
/// file (`None` when the file could not be read). Returns the id and whether
/// it is fresh and must be persisted.
pub fn resolve_cfu_id(stored: Option<String>) -> (r: (String, bool))
    ensures
        match stored {
            Some(contents) => {
                if spec_trim(contents@).len() > 0 {
                    r.0@ == spec_trim(contents@) && r.1 == false
                } else {
                    r.0@.len() == 36 && r.1 == true
                }
            },
            None => r.0@.len() == 36 && r.1 == true,
        },
{
    match stored {
        Some(contents) => {
            let t = trim_ascii(contents.as_str());
            if t.as_str().unicode_len() > 0 {
                (t, false)
            } else {
                (fresh_cfu_id(), true)
            }
        },
        None => (fresh_cfu_id(), true),
    }
}

} // verus!
