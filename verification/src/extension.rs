//! Filtering of paths by file extension.

use vstd::prelude::*;

verus! {

/// The extension of the path that `path` spells: what
/// `std::path::Path::extension` returns for it, as text, on the platform the
/// program is built for.
pub uninterp spec fn path_extension(path: Seq<char>) -> Option<Seq<char>>;

/// Whether a file with the given extension gets through `filters`: an empty
/// filter list lets everything through, any other list only the extensions
/// that it holds, compared character by character.
pub open spec fn allows(filters: Seq<Seq<char>>, extension: Option<Seq<char>>) -> bool {
    filters.len() == 0 || (extension matches Some(e) && filters.contains(e))
}

/// Whether the path gets through `filters` by its extension.
pub open spec fn extension_passes(path: Seq<char>, filters: Seq<Seq<char>>) -> bool {
    allows(filters, path_extension(path))
}

/// Calls `std::path::Path::extension` on the path that `path` spells and
/// hands the extension back as text. Nothing is proved of the call: its
/// result is what `path_extension` stands for. A path made from text has an
/// extension that is text too, so no extension is lost on the way back.
#[verifier::external_body]
fn extension_of(path: &str) -> (extension: Option<String>)
    ensures
        extension.deep_view() == path_extension(path@),
{
    std::path::Path::new(path).extension().and_then(|e| e.to_str()).map(|e| e.to_owned())
}

/// Decides whether a file whose extension is `extension` gets through
/// `filters`.
pub fn extension_allowed(extension: Option<&str>, filters: &[String]) -> (allowed: bool)
    ensures
        allowed == allows(filters.deep_view(), extension.deep_view()),
{
    if filters.len() == 0 {
        return true;
    }
    match extension {
        None => false,
        Some(e) => {
            let wanted = e.to_owned();
            let mut i: usize = 0;
            while i < filters.len()
                invariant
                    i <= filters.len(),
                    extension == Some(e),
                    wanted@ == e@,
                    forall|j: int| 0 <= j < i ==> filters.deep_view()[j] != e@,
                decreases filters.len() - i,
            {
                if filters[i] == wanted {
                    assert(filters.deep_view()[i as int] == e@);
                    assert(filters.deep_view().contains(e@));
                    return true;
                }
                i += 1;
            }
            false
        },
    }
}

/// Decides whether the file at `path` gets through the extension filters:
/// always when there are none, else when the path has an extension and the
/// filters hold it.
pub fn matches_extension(path: &str, filters: &[String]) -> (matched: bool)
    ensures
        matched == extension_passes(path@, filters.deep_view()),
{
    if filters.len() == 0 {
        return true;
    }
    let extension = extension_of(path);
    match &extension {
        Some(e) => extension_allowed(Some(e.as_str()), filters),
        None => extension_allowed(None, filters),
    }
}

} // verus!
