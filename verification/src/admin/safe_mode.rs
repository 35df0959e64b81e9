//! Safe mode: booting with only first-party system apps, activated by a
//! flag file.

use std::path::PathBuf;
use vstd::prelude::*;
use crate::text::equals;

verus! {

/// Whether an app id names one of the first-party system apps loaded in
/// safe mode.
pub open spec fn is_first_party(app_id: Seq<char>) -> bool {
    ||| app_id == "com.cortexos.settings"@
    ||| app_id == "com.cortexos.terminal-lite"@
    ||| app_id == "com.cortexos.file-manager"@
    ||| app_id == "com.cortexos.admin"@
}

/// The first-party apps of `apps`, in order.
pub open spec fn first_party(apps: Seq<String>) -> Seq<String>
    decreases apps.len(),
{
    if apps.len() == 0 {
        Seq::empty()
    } else {
        let rest = first_party(apps.drop_last());
        if is_first_party(apps.last()@) {
            rest.push(apps.last())
        } else {
            rest
        }
    }
}

/// The values that a sequence of references points to.
pub open spec fn deref_all(s: Seq<&String>) -> Seq<String> {
    s.map_values(|p: &String| *p)
}

/// Whether a file exists at the path. The answer depends on the
/// filesystem, so nothing is stated of it.
#[verifier::external_body]
fn path_exists(p: &PathBuf) -> (r: bool) {
    p.exists()
}

/// Safe mode manager, keyed by the path of its flag file.
pub struct SafeMode {
    flag_path: PathBuf,
}

impl SafeMode {
    /// The path of the flag file.
    pub closed spec fn flag(&self) -> PathBuf {
        self.flag_path
    }

    /// A safe mode manager with the given flag file path.
    pub fn with_flag_path(flag_path: PathBuf) -> (r: Self)
        ensures
            r.flag() == flag_path,
    {
        SafeMode { flag_path }
    }

    /// Whether the system is in safe mode: whether the flag file exists.
    pub fn is_safe_mode(&self) -> bool {
        path_exists(&self.flag_path)
    }

    /// The path of the flag file.
    pub fn flag_path(&self) -> (r: &PathBuf)
        ensures
            *r == self.flag(),
    {
        &self.flag_path
    }

    /// The first-party system apps among `apps`, in order; in safe mode
    /// only these are loaded.
    pub fn filter_first_party_apps<'a>(&self, apps: &'a [String]) -> (r: Vec<&'a String>)
        ensures
            deref_all(r@) == first_party(apps@),
    {
        let mut out: Vec<&'a String> = Vec::new();
        let mut i: usize = 0;
        while i < apps.len()
            invariant
                i <= apps@.len(),
                deref_all(out@) == first_party(apps@.subrange(0, i as int)),
            decreases apps.len() - i,
        {
            let app = &apps[i];
            proof {
                let pre = apps@.subrange(0, i + 1);
                assert(pre.drop_last() =~= apps@.subrange(0, i as int));
                assert(pre.last() == apps@[i as int]);
            }
            let s = app.as_str();
            if equals(s, "com.cortexos.settings") || equals(s, "com.cortexos.terminal-lite")
                || equals(s, "com.cortexos.file-manager") || equals(s, "com.cortexos.admin") {
                let ghost before = out@;
                out.push(app);
                proof {
                    assert(deref_all(out@) =~= deref_all(before).push(*app));
                }
            }
            i = i + 1;
        }
        proof {
            assert(apps@.subrange(0, apps@.len() as int) =~= apps@);
        }
        out
    }
}

} // verus!
