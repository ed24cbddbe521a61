use vstd::prelude::*;
use vstd::string::*;
use crate::text::{ends_with, ends_with_seq};

verus! {

/// The suffix that marks a file still being downloaded.
pub open spec fn partial_suffix() -> Seq<char> {
    ".fdm"@
}

/// Where the bytes of a download to `final_path` are gathered until it completes.
pub fn staging_path(final_path: &str) -> (r: String)
    ensures
        r@ == final_path@ + partial_suffix(),
{
    let mut r = String::from_str(final_path);
    r.append(".fdm");
    r
}

/// The directory part of a path, if it has one.
pub uninterp spec fn parent_of(p: Seq<char>) -> Option<Seq<char>>;

/// A path and a name joined into one path.
pub uninterp spec fn joined(dir: Seq<char>, name: Seq<char>) -> Seq<char>;

/// Relies on `std::path::Path::parent`: the path without its last component, if any, a
/// function of the path alone.
#[verifier::external_body]
fn parent_dir(p: &str) -> (r: Option<String>)
    ensures
        opt_chars(r) == parent_of(p@),
{
    std::path::Path::new(p).parent().map(|d| d.to_string_lossy().to_string())
}

/// Relies on `std::path::Path::join`: `name` appended to `dir` as a further component, a
/// function of the two alone.
#[verifier::external_body]
fn join_path(dir: &str, name: &str) -> (r: String)
    ensures
        r@ == joined(dir@, name@),
{
    std::path::Path::new(dir).join(name).to_string_lossy().to_string()
}

pub open spec fn opt_chars(o: Option<String>) -> Option<Seq<char>> {
    match o {
        Some(s) => Some(s@),
        None => None,
    }
}

/// A destination that names no real file: a directory, or the last segment of a
/// download link.
pub open spec fn is_placeholder(save_path: Seq<char>, save_is_dir: bool) -> bool {
    save_is_dir || ends_with_seq(save_path, "download"@) || ends_with_seq(save_path, "view"@)
}

/// Where a download lands: beside (or inside, for a directory) a placeholder destination
/// under the declared file name; otherwise the destination itself.
pub open spec fn final_path_of(save_path: Seq<char>, save_is_dir: bool, filename: Option<Seq<char>>) -> Seq<char> {
    match filename {
        Some(f) => if is_placeholder(save_path, save_is_dir) {
            let dir = if save_is_dir {
                save_path
            } else {
                match parent_of(save_path) {
                    Some(d) => d,
                    None => save_path,
                }
            };
            joined(dir, f)
        } else {
            save_path
        },
        None => save_path,
    }
}

/// Resolves the final path of a download to `save_path`, whose response declared
/// `filename`.
pub fn resolve_final_path(save_path: &str, save_is_dir: bool, filename: Option<&str>) -> (r: String)
    ensures
        r@ == final_path_of(
            save_path@,
            save_is_dir,
            match filename {
                Some(f) => Some(f@),
                None => None,
            },
        ),
{
    match filename {
        Some(f) => {
            if save_is_dir || ends_with(save_path, "download") || ends_with(save_path, "view") {
                let dir = if save_is_dir {
                    String::from_str(save_path)
                } else {
                    match parent_dir(save_path) {
                        Some(d) => d,
                        None => String::from_str(save_path),
                    }
                };
                join_path(dir.as_str(), f)
            } else {
                String::from_str(save_path)
            }
        },
        None => String::from_str(save_path),
    }
}

} // verus!
