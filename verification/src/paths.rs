//! Joining a file name onto a folder path.

use vstd::prelude::*;
use crate::text::{ends_with, starts_with};

verus! {

/// Whether `name` is a single plain path component: not empty, free of the
/// separators `/` and `\` and of the drive marker `:`, and neither `.` nor `..`.
pub open spec fn plain_component(name: Seq<char>) -> bool {
    &&& name.len() > 0
    &&& forall|i: int| 0 <= i < name.len() ==> #[trigger] name[i] != '/' && name[i] != '\\' && name[i] != ':'
    &&& name != seq!['.']
    &&& name != seq!['.', '.']
}

/// Whether `base` is a Windows verbatim path (it begins with `\\?\`).
pub open spec fn is_verbatim(base: Seq<char>) -> bool {
    starts_with(base, seq!['\\', '\\', '?', '\\'])
}

/// Whether `joined` is what joining the plain component `name` onto the
/// folder `base` may give on some platform: it ends with `name`; it is `name`
/// alone when `base` is empty; and, unless `base` is a verbatim path (which
/// Windows rebuilds from its components), it is `base` followed by `name`,
/// with one separator between them when one is needed.
pub open spec fn joined_path(base: Seq<char>, name: Seq<char>, joined: Seq<char>) -> bool {
    &&& ends_with(joined, name)
    &&& base.len() == 0 ==> joined == name
    &&& !is_verbatim(base) ==> {
        ||| joined == base + name
        ||| joined == base + seq!['/'] + name
        ||| joined == base + seq!['\\'] + name
    }
}

/// The path `base` joined with the plain component `name`, as text.
///
/// Trusted: calls std's `Path::join` and converts the result with
/// `to_string_lossy`. Per std's documentation of `PathBuf::push`, a relative
/// component is appended after a separator when `base` does not already end
/// in one (none after an empty `base` or a bare Windows drive such as `C:`);
/// verbatim Windows paths are rebuilt from their components. The conversion
/// is lossless since both parts are `str`. The platform's separator (`/` or
/// `\`) is not stated; the contract says what holds on every platform.
#[verifier::external_body]
pub(crate) fn join_path(base: &str, name: &str) -> (r: String)
    requires
        plain_component(name@),
    ensures
        joined_path(base@, name@, r@),
{
    std::path::Path::new(base).join(name).to_string_lossy().into_owned()
}

} // verus!
