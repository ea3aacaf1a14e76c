//! The names of the generated packages: the base name resolved from the
//! command line or the target directory, and the forms derived from it.
use vstd::prelude::*;

use heck::{CamelCase, KebabCase};

use crate::text::{contains_char, replace_all, replaced};

verus! {

/// The kebab-case form of `s`, as heck computes it.
pub uninterp spec fn kebab_case_of(s: Seq<char>) -> Seq<char>;

/// The upper camel-case form of `s`, as heck computes it.
pub uninterp spec fn camel_case_of(s: Seq<char>) -> Seq<char>;

/// Relies on `heck::KebabCase::to_kebab_case` for `str`: its result depends
/// on the characters of `s` alone.
#[verifier::external_body]
fn to_kebab_case(s: &str) -> (r: String)
    ensures
        r@ == kebab_case_of(s@),
{
    s.to_kebab_case()
}

/// Relies on `heck::CamelCase::to_camel_case` for `str`: its result depends
/// on the characters of `s` alone.
#[verifier::external_body]
fn to_camel_case(s: &str) -> (r: String)
    ensures
        r@ == camel_case_of(s@),
{
    s.to_camel_case()
}

/// The name with each `-` written as `_`, as Rust paths spell a package.
pub open spec fn snake_name_of(name: Seq<char>) -> Seq<char> {
    replaced(name, "-"@, "_"@)
}

/// The type-style name under which a derive macro is exported.
pub fn struct_name(name: &str) -> (r: String)
    ensures
        r@ == camel_case_of(name@),
{
    to_camel_case(name)
}

/// The name in snake case: `-` replaced by `_`.
pub fn snake_name(name: &str) -> (r: String)
    ensures
        r@ == snake_name_of(name@),
{
    proof {
        reveal_strlit("-");
    }
    replace_all(name, "-", "_")
}

/// Why no package name could be found.
#[derive(Clone, Copy, Debug, PartialEq, Eq, Structural)]
pub enum ResolveError {
    /// No name was given and the target directory has no final component.
    NameResolutionFailed,
}

/// The base name taken from a directory name: a name holding `_` is kept as
/// it is, any other is put in kebab case.
pub open spec fn name_from_dir(dir: Seq<char>) -> Seq<char> {
    if dir.contains('_') {
        dir
    } else {
        kebab_case_of(dir)
    }
}

/// The base name of the packages. A name given explicitly is used as it is;
/// otherwise `dir_name`, the final component of the target directory, gives
/// it. With neither, there is no name.
pub fn resolve_name(explicit: Option<String>, dir_name: Option<String>) -> (r: Result<
    String,
    ResolveError,
>)
    ensures
        explicit is Some ==> r is Ok && r->Ok_0 == explicit->Some_0,
        explicit is None && dir_name is None ==> r == Err::<String, ResolveError>(
            ResolveError::NameResolutionFailed,
        ),
        explicit is None && dir_name is Some ==> r is Ok && r->Ok_0@ == name_from_dir(
            dir_name->Some_0@,
        ),
{
    match explicit {
        Some(v) => Ok(v),
        None => match dir_name {
            Some(v) => {
                if contains_char(v.as_str(), '_') {
                    Ok(v)
                } else {
                    Ok(to_kebab_case(v.as_str()))
                }
            },
            None => Err(ResolveError::NameResolutionFailed),
        },
    }
}

/// The name of the package that holds the macro's logic.
pub fn impl_package_name(name: &str) -> (r: String)
    ensures
        r@ == name@ + "-impl"@,
{
    let mut r = String::new();
    r.append(name);
    r.append("-impl");
    r
}

/// The name of the proc-macro package.
pub fn macro_package_name(name: &str) -> (r: String)
    ensures
        r@ == name@ + "-macro"@,
{
    let mut r = String::new();
    r.append(name);
    r.append("-macro");
    r
}

} // verus!
