//! Rendering a worker's definition document.
//!
//! Each worker's definition is the shared template with two slots
//! filled: the worker's name and the path of its copy-on-write disk
//! image.  Reading the template and writing the rendered document are
//! the caller's I/O; the substitution itself happens here.

use vstd::prelude::*;

verus! {

/// What `str::replace` returns: the string with every occurrence of
/// `from` replaced by `to`, a function of the three arguments alone.
pub uninterp spec fn replace_of(s: Seq<char>, from: Seq<char>, to: Seq<char>) -> Seq<char>;

/// Relies on str::replace: replaces every occurrence of the pattern
/// with the replacement; the result depends on the arguments alone.
#[verifier::external_body]
fn replace_str(s: &str, from: &str, to: &str) -> (r: String)
    ensures
        r@ == replace_of(s@, from@, to@),
{
    s.replace(from, to)
}

/// Fills the template's two slots: every `__VM_NAME__` becomes the
/// worker's name, then every `__DISKIMG__` the disk-image path.
pub fn render_definition(template: &str, worker_name: &str, disk_image: &str) -> (r: String)
    ensures
        r@ == replace_of(
            replace_of(template@, "__VM_NAME__"@, worker_name@),
            "__DISKIMG__"@,
            disk_image@,
        ),
{
    let named = replace_str(template, "__VM_NAME__", worker_name);
    replace_str(named.as_str(), "__DISKIMG__", disk_image)
}

} // verus!
