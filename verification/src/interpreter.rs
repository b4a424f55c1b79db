//! Two-tier interpreter selection.
//!
//! Some distribution channels bundle a self-contained runtime environment
//! next to the backend for reproducibility; others rely on a system-managed
//! runtime. The supervisor therefore probes for a bundled interpreter at a
//! fixed platform-specific path inside the backend root and uses it by
//! absolute path when present, falling back to a bare platform-conventional
//! command name otherwise.

use vstd::prelude::*;

use crate::paths::join_seq;
use crate::paths::join_path;
use crate::platform::Platform;
use crate::platform::spec_system_interpreter;
use crate::platform::spec_venv_subpath;
use crate::platform::system_interpreter;
use crate::platform::venv_subpath;

verus! {

/// Absolute path of the bundled interpreter inside `root`.
pub open spec fn spec_venv_interpreter(p: Platform, root: Seq<char>) -> Seq<char> {
    join_seq(root, spec_venv_subpath(p))
}

/// The interpreter the backend is run with: the bundled one by absolute path
/// when it is present, the bare system command name otherwise.
pub open spec fn spec_select_interpreter(
    p: Platform,
    root: Seq<char>,
    venv_present: bool,
) -> Seq<char> {
    if venv_present {
        spec_venv_interpreter(p, root)
    } else {
        spec_system_interpreter(p)
    }
}

/// On every platform a bundled runtime interpreter, when present, is chosen
/// over the system-default interpreter name.
pub proof fn lemma_bundled_preferred(p: Platform, root: Seq<char>)
    ensures
        spec_select_interpreter(p, root, true) == spec_venv_interpreter(p, root),
        spec_select_interpreter(p, root, false) == spec_system_interpreter(p),
{
}

/// Where the bundled interpreter would live under `root`; the host checks
/// this path for existence.
pub fn venv_interpreter_path(p: Platform, root: &str) -> (r: String)
    ensures
        r@ == spec_venv_interpreter(p, root@),
{
    join_path(root, venv_subpath(p))
}

/// Selects the interpreter command, given whether the bundled interpreter
/// exists at its expected path under `root`.
pub fn select_interpreter(p: Platform, root: &str, venv_present: bool) -> (r: String)
    ensures
        r@ == spec_select_interpreter(p, root@, venv_present),
{
    if venv_present {
        venv_interpreter_path(p, root)
    } else {
        String::from_str(system_interpreter(p))
    }
}

} // verus!
