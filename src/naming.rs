use vstd::prelude::*;

verus! {

/// Whether `file` is `name` with some text before it and some after it.
pub open spec fn wraps_name(file: Seq<char>, name: Seq<char>) -> bool {
    exists|prefix: Seq<char>, suffix: Seq<char>| file == #[trigger] ((prefix + name) + suffix)
}

/// The platform file name of the library called `name`: fixed by the name and
/// the build target's library prefix and suffix.
pub uninterp spec fn library_file_of(name: Seq<char>) -> Seq<char>;

/// Relies on `libloading::library_filename`: the platform's library prefix,
/// then `name`, then the platform's library suffix.
#[verifier::external_body]
fn platform_file_name(name: &str) -> (r: String)
    ensures
        r@ == library_file_of(name@),
        wraps_name(r@, name@),
{
    libloading::library_filename(name).to_string_lossy().into_owned()
}

/// The file name under which the platform stores the library called `name`
/// (`gas` becomes `libgas.so` on Linux): `name` with the platform's prefix
/// before it and suffix after it.
pub fn library_file_name(name: &str) -> (r: String)
    ensures
        r@ == library_file_of(name@),
        wraps_name(r@, name@),
{
    platform_file_name(name)
}

} // verus!
