use vstd::prelude::*;

verus! {

/// The name that selects Java.
pub const JAVA: &'static str = "java";

/// The name that selects Kotlin.
pub const KOTLIN: &'static str = "kt";

/// The name that selects Go.
pub const GO: &'static str = "go";

/// The name that selects Python.
pub const PYTHON: &'static str = "py";

/// The name that selects Swift.
pub const SWIFT: &'static str = "swift";

/// The name that selects TypeScript.
pub const TYPESCRIPT: &'static str = "ts";

/// The name that selects TSX.
pub const TSX: &'static str = "tsx";

/// The name of the language used when none is given.
pub fn default_language() -> (name: String)
    ensures
        name@ == JAVA@,
{
    JAVA.to_owned()
}

} // verus!
