//! The platform strategy table.
//!
//! Interpreter selection and the candidate-path search differ by target
//! platform only in the data they consult: the relative path of a bundled
//! runtime interpreter and the name of the system interpreter. Keeping that
//! data behind a platform key keeps the algorithms themselves
//! platform-agnostic and lets a host (or a test) inject any platform.

use vstd::prelude::*;

verus! {

/// The target platform the application was built for.
#[derive(Clone, Copy, Debug, PartialEq, Eq, Structural)]
pub enum Platform {
    Windows,
    MacOs,
    Linux,
}

/// Path, relative to the backend root, where a bundled runtime environment
/// keeps its interpreter executable.
pub open spec fn spec_venv_subpath(p: Platform) -> Seq<char> {
    match p {
        Platform::Windows => "venv/Scripts/python.exe"@,
        Platform::MacOs => "venv/bin/python3"@,
        Platform::Linux => "venv/bin/python3"@,
    }
}

/// Bare command name of the system interpreter, resolved through the ambient
/// search path when no bundled runtime is present.
pub open spec fn spec_system_interpreter(p: Platform) -> Seq<char> {
    match p {
        Platform::Windows => "python"@,
        Platform::MacOs => "python3"@,
        Platform::Linux => "python3"@,
    }
}

pub fn venv_subpath(p: Platform) -> (r: &'static str)
    ensures
        r@ == spec_venv_subpath(p),
{
    match p {
        Platform::Windows => "venv/Scripts/python.exe",
        Platform::MacOs => "venv/bin/python3",
        Platform::Linux => "venv/bin/python3",
    }
}

pub fn system_interpreter(p: Platform) -> (r: &'static str)
    ensures
        r@ == spec_system_interpreter(p),
{
    match p {
        Platform::Windows => "python",
        Platform::MacOs => "python3",
        Platform::Linux => "python3",
    }
}

} // verus!
