//! Core logic of a desktop web-server companion: a TCP listener/socket
//! multiplexer that manages many listeners and connections through integer
//! handles and a single ordered event/data stream, together with the small
//! pure decision and encoding routines of the surrounding host process
//! (native-messaging framing, settings, update-check results).
//!
//! All I/O (binding, accepting, reading, writing, files) lives outside this
//! library; the functions here decide what the I/O layer must do and encode
//! what it sends.

use vstd::prelude::*;
use vstd::string::StrSliceExecFns;

pub mod common;
pub mod events;
pub mod fs_commands;
pub mod host;
pub mod json;
pub mod native_host;
pub mod settings;
pub mod tcp;
pub mod text;
pub mod updater;

verus! {

/// Default value for settings flags that start out enabled.
pub fn default_true() -> (b: bool)
    ensures
        b,
{
    true
}

/// Whether a path string starts with the `\\?\` extended-length prefix
/// that Windows APIs produce.
pub open spec fn has_win_prefix(s: Seq<char>) -> bool {
    s.len() >= 4 && s[0] == '\\' && s[1] == '\\' && s[2] == '?' && s[3] == '\\'
}

/// The path with the `\\?\` prefix removed, if it was there.
pub open spec fn spec_strip_win_prefix(s: Seq<char>) -> Seq<char> {
    if has_win_prefix(s) {
        s.skip(4)
    } else {
        s
    }
}

/// Strip the `\\?\` extended-length path prefix that Windows APIs produce.
/// Chrome's native messaging launcher doesn't understand this prefix.
pub fn strip_win_prefix(p: String) -> (r: String)
    ensures
        r@ == spec_strip_win_prefix(p@),
{
    let n = p.as_str().unicode_len();
    if n >= 4 && p.as_str().get_char(0) == '\\' && p.as_str().get_char(1) == '\\'
        && p.as_str().get_char(2) == '?' && p.as_str().get_char(3) == '\\' {
        let rest = p.as_str().substring_char(4, n);
        proof {
            assert(p@.subrange(4, n as int) =~= p@.skip(4));
        }
        rest.to_owned()
    } else {
        p
    }
}

} // verus!
