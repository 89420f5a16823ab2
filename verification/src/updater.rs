//! The headless update check's pure part: folding what the updater reported
//! into the result record that is persisted, and that record's JSON form
//! (optional fields are left out entirely when absent).

use vstd::prelude::*;
use vstd::string::StringExecFns;

use crate::json::{push_json_bool, push_json_string, spec_json_bool, spec_json_string};

verus! {

/// The persisted outcome of one headless update check.
#[derive(Debug)]
pub struct UpdateCheckResult {
    /// An update is available.
    pub available: bool,
    /// The available version, when one was found.
    pub version: Option<String>,
    /// The running version, when an update was found.
    pub current_version: Option<String>,
    /// The update's release notes, when it carries any.
    pub body: Option<String>,
    /// Why the check or the install failed, when it did.
    pub error: Option<String>,
}

/// What the updater reported.
#[derive(Debug)]
pub enum UpdateOutcome {
    /// The updater could not be constructed.
    InitFailed { message: String },
    /// The update check itself failed.
    CheckFailed { message: String },
    /// No update is available.
    UpToDate,
    /// An update is available (not installed, or not yet).
    Available { version: String, current_version: String, body: Option<String> },
    /// An update was found but downloading or installing it failed.
    InstallFailed { version: String, current_version: String, body: Option<String>, message: String },
}

/// Fold the updater's report into the record that is persisted.
pub fn update_check_result(outcome: UpdateOutcome) -> (r: UpdateCheckResult)
    ensures
        match outcome {
            UpdateOutcome::InitFailed { message } => {
                &&& r.available == false
                &&& r.version is None
                &&& r.current_version is None
                &&& r.body is None
                &&& r.error == Some(message)
            },
            UpdateOutcome::CheckFailed { message } => {
                &&& r.available == false
                &&& r.version is None
                &&& r.current_version is None
                &&& r.body is None
                &&& r.error == Some(message)
            },
            UpdateOutcome::UpToDate => {
                &&& r.available == false
                &&& r.version is None
                &&& r.current_version is None
                &&& r.body is None
                &&& r.error is None
            },
            UpdateOutcome::Available { version, current_version, body } => {
                &&& r.available == true
                &&& r.version == Some(version)
                &&& r.current_version == Some(current_version)
                &&& r.body == body
                &&& r.error is None
            },
            UpdateOutcome::InstallFailed { version, current_version, body, message } => {
                &&& r.available == true
                &&& r.version == Some(version)
                &&& r.current_version == Some(current_version)
                &&& r.body == body
                &&& r.error == Some(message)
            },
        },
{
    match outcome {
        UpdateOutcome::InitFailed { message } => UpdateCheckResult {
            available: false,
            version: None,
            current_version: None,
            body: None,
            error: Some(message),
        },
        UpdateOutcome::CheckFailed { message } => UpdateCheckResult {
            available: false,
            version: None,
            current_version: None,
            body: None,
            error: Some(message),
        },
        UpdateOutcome::UpToDate => UpdateCheckResult {
            available: false,
            version: None,
            current_version: None,
            body: None,
            error: None,
        },
        UpdateOutcome::Available { version, current_version, body } => UpdateCheckResult {
            available: true,
            version: Some(version),
            current_version: Some(current_version),
            body,
            error: None,
        },
        UpdateOutcome::InstallFailed { version, current_version, body, message } => UpdateCheckResult {
            available: true,
            version: Some(version),
            current_version: Some(current_version),
            body,
            error: Some(message),
        },
    }
}

/// One optional field of the result's JSON form: nothing when absent, a
/// comma, the key, and the string value when present.
pub open spec fn spec_opt_field(key: Seq<char>, v: Option<String>) -> Seq<char> {
    match v {
        None => Seq::empty(),
        Some(s) => ","@ + spec_json_string(key) + ":"@ + spec_json_string(s@),
    }
}

/// The JSON form of an update-check result: `available` always, the other
/// fields only when present.
pub open spec fn spec_update_json(r: UpdateCheckResult) -> Seq<char> {
    "{\"available\":"@ + spec_json_bool(r.available) + spec_opt_field("version"@, r.version)
        + spec_opt_field("current_version"@, r.current_version) + spec_opt_field(
        "body"@,
        r.body,
    ) + spec_opt_field("error"@, r.error) + "}"@
}

/// Append one optional field.
fn push_opt_field(out: &mut String, key: &str, v: &Option<String>)
    ensures
        final(out)@ == old(out)@ + spec_opt_field(key@, *v),
{
    match v {
        None => {},
        Some(s) => {
            out.append(",");
            push_json_string(out, key);
            out.append(":");
            push_json_string(out, s.as_str());
        },
    }
    proof {
        assert(out@ =~= old(out)@ + spec_opt_field(key@, *v));
    }
}

/// Encode an update-check result as JSON text.
pub fn update_result_json(r: &UpdateCheckResult) -> (out: String)
    ensures
        out@ == spec_update_json(*r),
{
    let mut out = String::new();
    out.append("{\"available\":");
    push_json_bool(&mut out, r.available);
    push_opt_field(&mut out, "version", &r.version);
    push_opt_field(&mut out, "current_version", &r.current_version);
    push_opt_field(&mut out, "body", &r.body);
    push_opt_field(&mut out, "error", &r.error);
    out.append("}");
    proof {
        assert(out@ =~= spec_update_json(*r));
    }
    out
}

} // verus!
