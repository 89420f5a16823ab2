//! Native-messaging registration logic that needs no I/O: the manifest
//! document with the host binary's path embedded, and the candidate file
//! names a sidecar binary may be installed under.

use vstd::prelude::*;
use vstd::string::StrSliceExecFns;
use vstd::string::StringExecFns;

use crate::json::{push_json_string, spec_json_string};

verus! {

/// The native-messaging host manifest for one install location: fixed
/// fields, keys in alphabetical order, with the host binary's path embedded
/// as a JSON string.
pub open spec fn spec_manifest_json(path: Seq<char>) -> Seq<char> {
    "{\"allowed_origins\":[\"chrome-extension://PLACEHOLDER_STABLE_ID/\",\"chrome-extension://PLACEHOLDER_DEV_ID/\"],\"description\":\"200 OK Web Server Native Messaging Host\",\"name\":\"app.ok200.native\",\"path\":"@
        + spec_json_string(path) + ",\"type\":\"stdio\"}"@
}

/// Build the native-messaging host manifest for the host binary at
/// `host_path`.
pub fn native_host_manifest_json(host_path: &str) -> (r: String)
    ensures
        r@ == spec_manifest_json(host_path@),
{
    let mut out = String::new();
    out.append(
        "{\"allowed_origins\":[\"chrome-extension://PLACEHOLDER_STABLE_ID/\",\"chrome-extension://PLACEHOLDER_DEV_ID/\"],\"description\":\"200 OK Web Server Native Messaging Host\",\"name\":\"app.ok200.native\",\"path\":",
    );
    push_json_string(&mut out, host_path);
    out.append(",\"type\":\"stdio\"}");
    proof {
        assert(out@ =~= spec_manifest_json(host_path@));
    }
    out
}

/// The last `/`-separated component of a name: the whole name when it holds
/// no separator, and everything after the last `/` otherwise.
pub open spec fn spec_base_name(s: Seq<char>) -> Seq<char>
    decreases s.len(),
{
    if s.len() == 0 {
        s
    } else if s[s.len() - 1] == '/' {
        Seq::empty()
    } else {
        spec_base_name(s.take(s.len() - 1)) + seq![s[s.len() - 1]]
    }
}

/// Extract a sidecar's bare file name from its configured name, which may
/// carry `/`-separated directory components in front.
pub fn sidecar_base_name(name: &str) -> (r: String)
    ensures
        r@ == spec_base_name(name@),
{
    let n = name.unicode_len();
    proof {
        assert(name@.take(n as int) =~= name@);
        assert(name@.skip(n as int) =~= Seq::<char>::empty());
        assert(spec_base_name(name@.take(n as int)) + name@.skip(n as int) =~= spec_base_name(
            name@,
        ));
    }
    let mut i: usize = n;
    while i > 0 && name.get_char(i - 1) != '/'
        invariant
            i <= n,
            n == name@.len(),
            spec_base_name(name@) == spec_base_name(name@.take(i as int)) + name@.skip(i as int),
        decreases i,
    {
        proof {
            let s = name@;
            assert(s.take(i as int)[i as int - 1] == s[i as int - 1]);
            assert(s.take(i as int).take(i as int - 1) =~= s.take(i as int - 1));
            assert(seq![s[i as int - 1]] + s.skip(i as int) =~= s.skip(i as int - 1));
            assert((spec_base_name(s.take(i as int - 1)) + seq![s[i as int - 1]]) + s.skip(
                i as int,
            ) =~= spec_base_name(s.take(i as int - 1)) + (seq![s[i as int - 1]] + s.skip(
                i as int,
            )));
        }
        i = i - 1;
    }
    proof {
        let s = name@;
        if i > 0 {
            assert(s.take(i as int)[i as int - 1] == s[i as int - 1]);
            assert(spec_base_name(s.take(i as int)) =~= Seq::<char>::empty());
        } else {
            assert(s.take(0) =~= Seq::<char>::empty());
        }
        assert(spec_base_name(s) == s.skip(i as int));
        assert(s.skip(i as int) =~= s.subrange(i as int, n as int));
    }
    name.substring_char(i, n).to_owned()
}

/// The candidate file names for a sidecar binary: first the standard name
/// with the target-triple suffix, then the plain name a development build
/// uses. `exe_suffix` is the platform's executable suffix (empty or `.exe`).
pub fn sidecar_file_names(base_name: &str, target_triple: &str, exe_suffix: &str) -> (r: Vec<
    String,
>)
    ensures
        r@.len() == 2,
        r@[0]@ == base_name@ + "-"@ + target_triple@ + exe_suffix@,
        r@[1]@ == base_name@ + exe_suffix@,
{
    let mut with_triple = String::new();
    with_triple.append(base_name);
    with_triple.append("-");
    with_triple.append(target_triple);
    with_triple.append(exe_suffix);
    let mut plain = String::new();
    plain.append(base_name);
    plain.append(exe_suffix);
    let mut r: Vec<String> = Vec::new();
    r.push(with_triple);
    r.push(plain);
    r
}

} // verus!
