//! Path arithmetic and the user's directories, as the platform defines them.
//!
//! Paths are held as text. The functions here hand that text to the
//! standard library, to `shellexpand` and to `dirs`; none of their bodies
//! is verified, and each says what it takes on trust.

use vstd::prelude::*;
use crate::text::text_of;

verus! {

/// Whether the platform's path rules call `path` absolute.
pub uninterp spec fn is_absolute_path(path: Seq<char>) -> bool;

/// `path` adjoined to `base` by the platform's path rules.
pub uninterp spec fn joined_path(base: Seq<char>, path: Seq<char>) -> Seq<char>;

/// The directory that holds `path`, if the platform's path rules give it one.
pub uninterp spec fn parent_path(path: Seq<char>) -> Option<Seq<char>>;

/// Whether `input` begins with a tilde that stands alone or leads a path.
pub open spec fn tilde_shape(input: Seq<char>) -> bool {
    input.len() > 0 && input[0] == '~' && (input.len() == 1 || input[1] == '/' || input[1] == '\\')
}

/// `input` with its leading tilde replaced by `home`.
pub open spec fn with_home(input: Seq<char>, home: Seq<char>) -> Seq<char> {
    home + input.skip(1)
}

/// What tilde expansion can make of `input`: the input itself, or, where a
/// tilde leads it, the input with some home directory in the tilde's place.
pub open spec fn tilde_outcome(input: Seq<char>, output: Seq<char>) -> bool {
    output == input || (tilde_shape(input) && exists|home: Seq<char>|
        output == #[trigger] with_home(input, home))
}

/// Whether a path begins at the root, as an absolute path does where
/// paths are written with slashes.
pub open spec fn is_rooted(path: Seq<char>) -> bool {
    path.len() > 0 && path[0] == '/'
}

/// A path that a tilde leads, expanded against a home directory that begins
/// at the root, begins at the root itself: the tilde is gone and the rest
/// of the path follows the home directory unchanged.
pub proof fn lemma_home_path_is_rooted(input: Seq<char>, home: Seq<char>)
    requires
        tilde_shape(input),
        is_rooted(home),
    ensures
        is_rooted(with_home(input, home)),
        with_home(input, home).subrange(0, home.len() as int) == home,
        with_home(input, home).skip(home.len() as int) == input.skip(1),
{
    assert(with_home(input, home)[0] == home[0]);
    assert(with_home(input, home).subrange(0, home.len() as int) =~= home);
    assert(with_home(input, home).skip(home.len() as int) =~= input.skip(1));
}

/// A path that begins at the root is left as it is by tilde expansion.
pub proof fn lemma_rooted_path_is_kept(input: Seq<char>, output: Seq<char>)
    requires
        is_rooted(input),
        tilde_outcome(input, output),
    ensures
        output == input,
{
}

/// Whether `input` holds a dollar sign, the mark of a variable.
pub open spec fn names_variable(input: Seq<char>) -> bool {
    input.contains('$')
}

/// Why a text could not be expanded.
#[derive(Clone, Debug, PartialEq, Eq)]
pub struct ExpandError {
    /// The variable that could not be looked up.
    pub var_name: String,
    /// What the environment said about it.
    pub cause: String,
}

/// Calls `std::path::Path::is_absolute`. Taken on trust: the answer depends
/// on the text of the path alone.
#[verifier::external_body]
pub(crate) fn path_is_absolute(path: &str) -> (r: bool)
    ensures
        r == is_absolute_path(path@),
{
    std::path::Path::new(path).is_absolute()
}

/// Calls `std::path::Path::join`. Taken on trust: the result depends on the
/// two texts alone.
#[verifier::external_body]
pub(crate) fn path_join(base: &str, path: &str) -> (r: String)
    ensures
        r@ == joined_path(base@, path@),
{
    std::path::Path::new(base).join(path).to_string_lossy().into_owned()
}

/// Calls `std::path::Path::parent`. Taken on trust: the result depends on
/// the text of the path alone.
#[verifier::external_body]
pub(crate) fn path_parent(path: &str) -> (r: Option<String>)
    ensures
        text_of(r) == parent_path(path@),
{
    std::path::Path::new(path).parent().map(|p| p.to_string_lossy().into_owned())
}

/// Calls `shellexpand::tilde`, which reads the user's home directory.
/// Taken on trust: the text comes back unchanged unless a tilde leads it,
/// and then at most the tilde is replaced.
#[verifier::external_body]
pub(crate) fn tilde(input: &str) -> (r: String)
    ensures
        tilde_outcome(input@, r@),
{
    shellexpand::tilde(input).into_owned()
}

/// Calls `shellexpand::full`, which reads the user's home directory and the
/// environment. Taken on trust: a text without a dollar sign holds no
/// variable, so it cannot fail and only its tilde is expanded.
#[verifier::external_body]
pub(crate) fn full(input: &str) -> (r: Result<String, ExpandError>)
    ensures
        r is Err ==> names_variable(input@),
        r matches Ok(text) ==> names_variable(input@) || tilde_outcome(input@, text@),
{
    match shellexpand::full(input) {
        Ok(text) => Ok(text.into_owned()),
        Err(e) => Err(ExpandError { var_name: e.var_name, cause: e.cause.to_string() }),
    }
}

/// Calls `dirs::config_dir`, which reads the environment. Nothing is
/// promised of the answer.
#[verifier::external_body]
pub(crate) fn user_config_dir() -> (r: Option<String>) {
    dirs::config_dir().map(|p| p.to_string_lossy().into_owned())
}

/// Calls `dirs::data_dir`, which reads the environment. Nothing is promised
/// of the answer.
#[verifier::external_body]
pub(crate) fn user_data_dir() -> (r: Option<String>) {
    dirs::data_dir().map(|p| p.to_string_lossy().into_owned())
}

} // verus!
