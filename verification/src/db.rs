//! Where a persistent store lies.

use vstd::prelude::*;

verus! {

/// `String::push_str` of std: the text grows by `more` at its end.
#[verifier::external_body]
fn append(text: &mut String, more: &str)
    ensures
        final(text)@ == old(text)@ + more@,
{
    text.push_str(more)
}

/// The directory of the store `name` below `path`: the two written one
/// behind the other, and a slash.
pub fn persistent_root(path: &str, name: &str) -> (root: String)
    ensures
        root@ == path@ + name@ + "/"@,
{
    let mut root = String::new();
    append(&mut root, path);
    append(&mut root, name);
    append(&mut root, "/");
    assert(root@ =~= path@ + name@ + "/"@);
    root
}

} // verus!
