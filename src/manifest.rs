//! The edits made to the manifests that `cargo new` writes: the facade
//! manifest becomes the workspace root, the `impl` package gains the
//! macro-writing dependencies and the `macro` package becomes a proc-macro
//! library that depends on `impl`.
use vstd::prelude::*;

use crate::text::{lemma_replaced_absent, occurs_in, replace_all, replaced};

verus! {

/// The header of the dependency table, which the edits replace.
pub const DEPENDENCIES_TABLE: &'static str = "[dependencies]";

/// The facade manifest's section up to the name of the `macro` package.
pub const WORKSPACE_HEAD: &'static str = "[dependencies]
";

/// The facade manifest's section after the name of the `macro` package.
pub const WORKSPACE_TAIL: &'static str = "-macro = { version = \"=0.1.0\", path = \"macro\" }

[workspace]
members = [\".\", \"impl\", \"macro\"]
default-members = [\".\", \"impl\"]
";

/// Appended to the `impl` manifest.
pub const IMPL_DEPENDENCIES: &'static str = "syn = { version = \"1\", features = [\"full\", \"extra-traits\"] }
quote = \"1\"
proc-macro2 = \"1\"
";

/// The `macro` manifest's section up to the name of the `impl` package.
pub const MACRO_HEAD: &'static str = "[lib]
proc-macro = true

[dependencies]
";

/// The `macro` manifest's section after the name of the `impl` package.
pub const MACRO_TAIL: &'static str = "-impl = { version = \"=0.1.0\", path = \"../impl\" }
syn = { version = \"1\", features = [\"full\", \"extra-traits\"] }
quote = \"1\"
proc-macro2 = \"1\"";

/// What stands for the dependency table of the facade manifest.
pub open spec fn workspace_section(name: Seq<char>) -> Seq<char> {
    WORKSPACE_HEAD@ + name + WORKSPACE_TAIL@
}

/// What stands for the dependency table of the `macro` manifest.
pub open spec fn macro_section(name: Seq<char>) -> Seq<char> {
    MACRO_HEAD@ + name + MACRO_TAIL@
}

fn concat3(a: &str, b: &str, c: &str) -> (r: String)
    ensures
        r@ == a@ + b@ + c@,
{
    let mut r = String::new();
    r.append(a);
    r.append(b);
    r.append(c);
    r
}

/// The facade manifest as the root of a workspace whose members are the
/// facade, `impl` and `macro`: each dependency table header gains the
/// `macro` package as a dependency and is followed by the workspace table.
/// A manifest without that header is left as it is.
pub fn workspace_manifest(toml: &str, name: &str) -> (r: String)
    ensures
        r@ == replaced(toml@, DEPENDENCIES_TABLE@, workspace_section(name@)),
        !occurs_in(toml@, DEPENDENCIES_TABLE@) ==> r@ == toml@,
{
    proof {
        reveal_strlit("[dependencies]");
        if !occurs_in(toml@, DEPENDENCIES_TABLE@) {
            lemma_replaced_absent(toml@, DEPENDENCIES_TABLE@, workspace_section(name@));
        }
    }
    let section = concat3(WORKSPACE_HEAD, name, WORKSPACE_TAIL);
    replace_all(toml, DEPENDENCIES_TABLE, section.as_str())
}

/// The `impl` manifest with the dependencies that macro logic needs appended.
pub fn impl_manifest(toml: &str) -> (r: String)
    ensures
        r@ == toml@ + IMPL_DEPENDENCIES@,
{
    let mut r = String::new();
    r.append(toml);
    r.append(IMPL_DEPENDENCIES);
    r
}

/// The `macro` manifest as a proc-macro library: each dependency table header
/// is preceded by the `[lib]` table and followed by the `impl` package and the
/// macro dependencies. A manifest without that header is left as it is.
pub fn macro_manifest(toml: &str, name: &str) -> (r: String)
    ensures
        r@ == replaced(toml@, DEPENDENCIES_TABLE@, macro_section(name@)),
        !occurs_in(toml@, DEPENDENCIES_TABLE@) ==> r@ == toml@,
{
    proof {
        reveal_strlit("[dependencies]");
        if !occurs_in(toml@, DEPENDENCIES_TABLE@) {
            lemma_replaced_absent(toml@, DEPENDENCIES_TABLE@, macro_section(name@));
        }
    }
    let section = concat3(MACRO_HEAD, name, MACRO_TAIL);
    replace_all(toml, DEPENDENCIES_TABLE, section.as_str())
}

} // verus!
