//! The complete launch decision, made once at startup.
//!
//! Given the platform, the base directory supplied by the host shell, the
//! current working directory and the list of relevant paths that exist on
//! disk, the plan fixes every input of the spawn operation: the backend root
//! (also the working directory of the child), the interpreter command and
//! the entry-point file. The host then only executes the plan: spawn the
//! interpreter with the entry point as argument, working directory set to
//! the backend root, standard output and error inherited.

use vstd::prelude::*;

use crate::interpreter::select_interpreter;
use crate::interpreter::spec_select_interpreter;
use crate::interpreter::spec_venv_interpreter;
use crate::interpreter::venv_interpreter_path;
use crate::paths::candidate_paths;
use crate::paths::join_path;
use crate::paths::join_seq;
use crate::paths::path_exists_in;
use crate::paths::select_backend_root;
use crate::paths::spec_candidates;
use crate::paths::spec_path_exists;
use crate::paths::spec_root_found;
use crate::paths::spec_select_root;
use crate::platform::Platform;

verus! {

/// Name of the backend entry-point file, directly under the backend root.
pub open spec fn spec_entry_point_name() -> Seq<char> {
    "app.py"@
}

/// Everything the spawn operation needs. `root_found` records the deferred
/// outcome of the path search: when false no candidate existed, the spawn is
/// still attempted and fails at execution time.
pub struct LaunchPlan {
    /// Resolved backend root; also the working directory for the child.
    pub backend_root: String,
    /// Interpreter command: bundled interpreter by absolute path, or bare
    /// system command name.
    pub interpreter: String,
    /// Entry-point file joined onto the backend root.
    pub entry_point: String,
    /// Whether any candidate backend directory existed.
    pub root_found: bool,
}

/// The backend root the plan settles on.
pub open spec fn spec_plan_root(p: Platform, base: Seq<char>, cwd: Seq<char>, fs: Seq<Seq<char>>) -> Seq<char> {
    spec_select_root(spec_candidates(p, base, cwd), fs)
}

/// Resolves the backend root, the interpreter and the entry point in one
/// step. `fs` is the list of existing paths among those the plan may probe:
/// the candidate directories and the bundled interpreter inside the selected
/// root.
pub fn plan_launch(p: Platform, base: &str, cwd: &str, fs: &Vec<String>) -> (r: LaunchPlan)
    ensures
        r.backend_root@ == spec_plan_root(p, base@, cwd@, fs.deep_view()),
        r.root_found == spec_root_found(spec_candidates(p, base@, cwd@), fs.deep_view()),
        r.entry_point@ == join_seq(r.backend_root@, spec_entry_point_name()),
        r.interpreter@ == spec_select_interpreter(
            p,
            r.backend_root@,
            spec_path_exists(fs.deep_view(), spec_venv_interpreter(p, r.backend_root@)),
        ),
{
    let cands = candidate_paths(p, base, cwd);
    let resolved = select_backend_root(&cands, fs);
    let entry_point = join_path(resolved.path.as_str(), "app.py");
    let venv = venv_interpreter_path(p, resolved.path.as_str());
    let venv_present = path_exists_in(fs, &venv);
    let interpreter = select_interpreter(p, resolved.path.as_str(), venv_present);
    LaunchPlan { backend_root: resolved.path, interpreter, entry_point, root_found: resolved.found }
}

} // verus!
