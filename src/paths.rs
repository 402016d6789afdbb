use vstd::prelude::*;

verus! {

/// The final component of a path, as `std::path::Path::file_name` gives it.
pub uninterp spec fn file_name_of(path: Seq<char>) -> Option<Seq<char>>;

/// The path `name` appended to `base`, as `std::path::Path::join` gives it.
pub uninterp spec fn joined(base: Seq<char>, name: Seq<char>) -> Seq<char>;

/// The view of an optional string.
pub open spec fn opt_view(o: Option<String>) -> Option<Seq<char>> {
    match o {
        Some(s) => Some(s@),
        None => None,
    }
}

/// Where a copy of `source` lands under `destination`: the destination
/// directory joined with the source's file name. The directories above the
/// file are dropped. There is none when the source has no file name.
pub open spec fn flattened(destination: Seq<char>, source: Seq<char>) -> Option<Seq<char>> {
    match file_name_of(source) {
        Some(name) => Some(joined(destination, name)),
        None => None,
    }
}

/// Relies on `std::path::Path::file_name`: the last component of the path,
/// none when the path ends in `..` or is a root; it depends on the text alone.
#[verifier::external_body]
fn file_name(path: &str) -> (r: Option<String>)
    ensures
        opt_view(r) == file_name_of(path@),
{
    match std::path::Path::new(path).file_name() {
        Some(name) => Some(name.to_string_lossy().into_owned()),
        None => None,
    }
}

/// Relies on `std::path::Path::join`: `base` with `name` appended as a further
/// component; it depends on the two texts alone.
#[verifier::external_body]
fn join(base: &str, name: &str) -> (r: String)
    ensures
        r@ == joined(base@, name@),
{
    std::path::Path::new(base).join(name).to_string_lossy().into_owned()
}

/// The path that a copy of `source` gets under `destination`, with the
/// source's directories dropped; `None` when `source` has no file name.
pub fn destination_path(destination: &str, source: &str) -> (r: Option<String>)
    ensures
        opt_view(r) == flattened(destination@, source@),
{
    match file_name(source) {
        Some(name) => Some(join(destination, name.as_str())),
        None => None,
    }
}

} // verus!
