//! Microsoft Edge WebView2 runtime detection: which reported value names the installed
//! version.  Reading the registry and the install folders is the OS's part.
use vstd::prelude::*;

use crate::text::{to_owned_string, trim, trim_str};

verus! {

pub const WEBVIEW2_APP_GUID: &'static str = "{F3017226-FE2A-4295-8BDF-00C3A9A7E4C5}";

pub const WEBVIEW2_DOWNLOAD_URL: &'static str = "https://go.microsoft.com/fwlink/p/?LinkId=2124703";

pub const EDGE_CLIENTS_SUBKEY: &'static str = "Software\\Microsoft\\EdgeUpdate\\Clients";

pub const EDGE_CLIENTS_SUBKEY_WOW64: &'static str = "Software\\WOW6432Node\\Microsoft\\EdgeUpdate\\Clients";

/// The version a registry `pv` value names: the trimmed value, when not blank.
pub fn registry_pv_version(value: &str) -> (r: Option<String>)
    ensures
        match r {
            Some(v) => trim(value@).len() > 0 && v@ == trim(value@),
            None => trim(value@).len() == 0,
        },
{
    let t = trim_str(value);
    if t.as_str().is_empty() {
        None
    } else {
        Some(t)
    }
}

/// The installed version: the first registry hit, else the first runtime folder that holds
/// the WebView2 executable (`Some(name)` when its name is valid text, `Some(None)` when
/// not, reported as `unknown`), else none.
pub fn installed_webview2_version(registry_hits: Vec<Option<String>>, folder_hit: Option<Option<String>>) -> (r: Option<String>)
    ensures
        (exists|k: int| 0 <= k < registry_hits@.len() && registry_hits@[k] is Some) ==> r is Some && (exists|k: int|
            0 <= k < registry_hits@.len() && registry_hits@[k] == r && (forall|j: int| 0 <= j < k ==> registry_hits@[j] is None)),
        (forall|k: int| 0 <= k < registry_hits@.len() ==> registry_hits@[k] is None) ==> match folder_hit {
            Some(Some(name)) => r == Some(name),
            Some(None) => r is Some && r->0@ == "unknown"@,
            None => r is None,
        },
{
    let n = registry_hits.len();
    let mut i: usize = 0;
    while i < n
        invariant
            n == registry_hits@.len(),
            i <= n,
            forall|j: int| 0 <= j < i ==> registry_hits@[j] is None,
        decreases n - i,
    {
        match &registry_hits[i] {
            Some(v) => {
                let found = v.clone();
                assert(registry_hits@[i as int] == Some(found));
                return Some(found);
            },
            None => {},
        }
        i = i + 1;
    }
    match folder_hit {
        Some(Some(name)) => Some(name),
        Some(None) => Some(to_owned_string("unknown")),
        None => None,
    }
}

} // verus!
