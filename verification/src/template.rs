//! The two files that every new project receives, character for character.

use vstd::prelude::*;
use vstd::utf8::is_ascii_chars;
use crate::layout::CRATES_DIR;

verus! {

/// The workspace manifest: every package below the crates directory is a
/// member, and dependencies are resolved by version 2 of the resolver.
pub const WORKSPACE_MANIFEST: &'static str = "[workspace]\nmembers = [\"crates/*\"]\nresolver = \"2\"\n";

/// The formatter's configuration: imports are merged per crate, comments
/// are wrapped at 100 columns, and imports are grouped as std, external, crate.
pub const FORMAT_CONFIG: &'static str =
    "imports_granularity=\"Crate\"\nwrap_comments=true\ncomment_width=100\ngroup_imports=\"StdExternalCrate\"\n";

/// The pattern by which the workspace manifest finds its members.
pub open spec fn members_pattern() -> Seq<char> {
    CRATES_DIR@ + "/*"@
}

/// The workspace manifest is made of a header, the membership pattern and
/// the resolver version, one line each.
pub proof fn workspace_manifest_structure()
    ensures
        WORKSPACE_MANIFEST@ == "[workspace]\n"@ + "members = [\""@ + members_pattern()
            + "\"]\n"@ + "resolver = \"2\"\n"@,
{
    reveal_strlit("[workspace]\nmembers = [\"crates/*\"]\nresolver = \"2\"\n");
    reveal_strlit("[workspace]\n");
    reveal_strlit("members = [\"");
    reveal_strlit("crates");
    reveal_strlit("/*");
    reveal_strlit("\"]\n");
    reveal_strlit("resolver = \"2\"\n");
    assert(WORKSPACE_MANIFEST@ =~= "[workspace]\n"@ + "members = [\""@ + members_pattern()
        + "\"]\n"@ + "resolver = \"2\"\n"@);
}

/// One line of the formatter's configuration.
pub open spec fn setting_line(key: Seq<char>, value: Seq<char>) -> Seq<char> {
    key + "="@ + value + "\n"@
}

/// The formatter's configuration holds four settings, one line each.
pub proof fn format_config_structure()
    ensures
        FORMAT_CONFIG@ == setting_line("imports_granularity"@, "\"Crate\""@) + setting_line(
            "wrap_comments"@,
            "true"@,
        ) + setting_line("comment_width"@, "100"@) + setting_line(
            "group_imports"@,
            "\"StdExternalCrate\""@,
        ),
{
    reveal_strlit(
        "imports_granularity=\"Crate\"\nwrap_comments=true\ncomment_width=100\ngroup_imports=\"StdExternalCrate\"\n",
    );
    reveal_strlit("imports_granularity");
    reveal_strlit("\"Crate\"");
    reveal_strlit("wrap_comments");
    reveal_strlit("true");
    reveal_strlit("comment_width");
    reveal_strlit("100");
    reveal_strlit("group_imports");
    reveal_strlit("\"StdExternalCrate\"");
    reveal_strlit("=");
    reveal_strlit("\n");
    assert(FORMAT_CONFIG@ =~= setting_line("imports_granularity"@, "\"Crate\""@)
        + setting_line("wrap_comments"@, "true"@) + setting_line("comment_width"@, "100"@)
        + setting_line("group_imports"@, "\"StdExternalCrate\""@));
}

/// Both texts are plain ASCII: written to a file, each character is one byte.
pub proof fn templates_are_ascii()
    ensures
        is_ascii_chars(WORKSPACE_MANIFEST@),
        is_ascii_chars(FORMAT_CONFIG@),
{
    reveal_strlit("[workspace]\nmembers = [\"crates/*\"]\nresolver = \"2\"\n");
    reveal_strlit(
        "imports_granularity=\"Crate\"\nwrap_comments=true\ncomment_width=100\ngroup_imports=\"StdExternalCrate\"\n",
    );
}

} // verus!
