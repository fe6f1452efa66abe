//! Names of the tool that is run and of the files and directories of a new project.

use vstd::prelude::*;

verus! {

/// The build tool that creates packages and adds dependencies.
pub const TOOL: &'static str = "cargo";

/// The manifest at the root of the project.
pub const MANIFEST_FILE: &'static str = "Cargo.toml";

/// The formatter's configuration at the root of the project.
pub const FORMAT_CONFIG_FILE: &'static str = "rustfmt.toml";

/// The directory, below the root, that holds the member packages.
pub const CRATES_DIR: &'static str = "crates";

/// The member package that every new project starts with.
pub const MEMBER_NAME: &'static str = "app";

/// The dependencies that the member package starts with, in the order in
/// which they are handed to the tool.
pub open spec fn default_dependencies() -> Seq<Seq<char>> {
    seq!["snafu"@, "tracing"@, "tracing-subscriber"@, "ir_aquila"@]
}

/// The names of the default dependencies.
pub fn dependency_names() -> (names: Vec<String>)
    ensures
        names.deep_view() == default_dependencies(),
{
    let names = vec![
        "snafu".to_owned(),
        "tracing".to_owned(),
        "tracing-subscriber".to_owned(),
        "ir_aquila".to_owned(),
    ];
    assert(names.deep_view() =~= default_dependencies());
    names
}

} // verus!
