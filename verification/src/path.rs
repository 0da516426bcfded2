//! Paths as text: the UTF-8 path operations of `camino` that the tool uses,
//! and the expansion of `~` and `$HOME` in configured paths.

use vstd::prelude::*;

verus! {

/// The name of an environment variable.
#[derive(Debug)]
pub struct EnvVariableName(String);

impl View for EnvVariableName {
    type V = Seq<char>;

    closed spec fn view(&self) -> Seq<char> {
        self.0@
    }
}

impl EnvVariableName {
    pub fn new(name: String) -> (res: Self)
        ensures
            res@ == name@,
    {
        Self(name)
    }

    pub fn as_str(&self) -> (res: &str)
        ensures
            res@ == self@,
    {
        self.0.as_str()
    }
}

/// Errors of path handling.
#[derive(Debug)]
pub enum Error {
    /// A path that is not valid UTF-8.
    NonUtf8 { path: String },
    /// An environment variable that could not be read.
    Env { variable: EnvVariableName, error: String },
    /// A path whose expansion failed.
    Expand { error: String },
}

/// The result of `Utf8Path::parent` on a path, as text.
pub uninterp spec fn spec_path_parent(path: Seq<char>) -> Option<Seq<char>>;

/// Whether `Utf8Path::starts_with` holds of `path` and `base`.
pub uninterp spec fn spec_path_starts_with(path: Seq<char>, base: Seq<char>) -> bool;

/// What `Utf8Path::strip_prefix` leaves of `path` when it succeeds.
pub uninterp spec fn spec_path_strip_prefix(path: Seq<char>, base: Seq<char>) -> Seq<char>;

/// The result of `Utf8Path::join`, as text.
pub uninterp spec fn spec_path_join(base: Seq<char>, path: Seq<char>) -> Seq<char>;

/// Whether two paths are equal as `Utf8Path` values, which compares them
/// component by component.
pub uninterp spec fn spec_path_eq(a: Seq<char>, b: Seq<char>) -> bool;

/// The result of `shellexpand::full_with_context` on `path`, with `home` as
/// the home directory and as the value of `HOME`, the only variable known.
pub uninterp spec fn spec_shell_expand(path: Seq<char>, home: Seq<char>) -> Result<Seq<char>, Seq<char>>;

/// `camino::Utf8Path::parent`. The parent is `path` without its final
/// component, a part of `path` from its start, so it is shorter than
/// `path`. The contract names the result and states that it is shorter.
#[verifier::external_body]
pub(crate) fn path_parent(path: &str) -> (r: Option<String>)
    ensures
        match r {
            Some(p) => spec_path_parent(path@) == Some(p@) && p@.len() < path@.len(),
            None => spec_path_parent(path@) is None,
        },
{
    camino::Utf8Path::new(path).parent().map(|p| p.as_str().to_owned())
}

/// `camino::Utf8Path::starts_with`, which compares whole components. The
/// contract names the result.
#[verifier::external_body]
pub(crate) fn path_starts_with(path: &str, base: &str) -> (r: bool)
    ensures
        r == spec_path_starts_with(path@, base@),
{
    camino::Utf8Path::new(path).starts_with(base)
}

/// `camino::Utf8Path::strip_prefix`. Its documentation says that it fails
/// exactly when `base` is not a prefix of `path`, that is when `starts_with`
/// is false; the contract states that and names what remains. The text of
/// the error is left unsaid.
#[verifier::external_body]
pub(crate) fn path_strip_prefix(path: &str, base: &str) -> (r: Result<String, String>)
    ensures
        r is Ok <==> spec_path_starts_with(path@, base@),
        r matches Ok(s) ==> s@ == spec_path_strip_prefix(path@, base@),
{
    match camino::Utf8Path::new(path).strip_prefix(base) {
        Ok(p) => Ok(p.as_str().to_owned()),
        Err(e) => Err(e.to_string()),
    }
}

/// `camino::Utf8Path::join`. The contract names the result.
#[verifier::external_body]
pub(crate) fn path_join(base: &str, path: &str) -> (r: String)
    ensures
        r@ == spec_path_join(base@, path@),
{
    camino::Utf8Path::new(base).join(path).into_string()
}

/// `==` on `camino::Utf8Path`, which compares the paths component by
/// component. The contract names the result, and states that two paths of
/// the same text are equal: they have the same components.
#[verifier::external_body]
pub(crate) fn path_eq(a: &str, b: &str) -> (r: bool)
    ensures
        r == spec_path_eq(a@, b@),
        a@ == b@ ==> r,
{
    camino::Utf8Path::new(a) == camino::Utf8Path::new(b)
}

/// The value of an environment variable during expansion: `HOME` has the
/// home directory, every other variable is unknown.
pub fn home_lookup(name: &str, home: &str) -> (r: Option<String>)
    ensures
        r matches Some(v) ==> v@ == home@,
        r is Some <==> name@ == "HOME"@,
{
    if crate::text::str_eq(name, "HOME") {
        Some(home.to_owned())
    } else {
        None
    }
}

/// `shellexpand::full_with_context` with `home` as the home directory and a
/// lookup that knows `HOME` alone. The contract names the result, the error
/// taken by its cause.
#[verifier::external_body]
fn shell_expand(path: &str, home: &str) -> (r: Result<String, String>)
    ensures
        match r {
            Ok(s) => spec_shell_expand(path@, home@) == Ok::<Seq<char>, Seq<char>>(s@),
            Err(e) => spec_shell_expand(path@, home@) == Err::<Seq<char>, Seq<char>>(e@),
        },
{
    match shellexpand::full_with_context(
        path,
        || Some(home.to_owned()),
        |name| Ok::<Option<String>, String>(home_lookup(name, home)),
    ) {
        Ok(expanded) => Ok(expanded.into_owned()),
        Err(e) => Err(e.cause),
    }
}

/// Expands `~` and `$HOME` (also written `${HOME}`) in `path`, with `home`
/// as the home directory. Other variables stay as they are.
pub fn expand_path(path: &str, home: &str) -> (r: Result<String, Error>)
    ensures
        match spec_shell_expand(path@, home@) {
            Ok(s) => r matches Ok(p) && p@ == s,
            Err(e) => r matches Err(Error::Expand { error }) && error@ == e,
        },
{
    match shell_expand(path, home) {
        Ok(expanded) => Ok(expanded),
        Err(error) => Err(Error::Expand { error }),
    }
}

} // verus!
