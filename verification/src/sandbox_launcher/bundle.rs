//! Where the bundle of a launcher is, and what belongs to it.

use vstd::prelude::*;

use crate::sandbox_launcher;
use crate::sandbox_launcher::FoundFile;
use crate::text;

verus! {

/// A path is parted at its last slash.
pub proof fn path_is_parted_at_its_last_slash(parent: Seq<char>, name: Seq<char>)
    requires
        !name.contains('/'),
    ensures
        sandbox_launcher::parted(parent.push('/') + name) == Some((parent, name)),
    decreases name.len(),
{
    let path = parent.push('/') + name;
    if name.len() == 0 {
        assert(path =~= parent.push('/'));
        assert(path.drop_last() =~= parent);
        assert(name =~= Seq::<char>::empty());
    } else {
        let shorter = name.drop_last();
        assert forall|i: int| 0 <= i < shorter.len() implies shorter[i] != '/' by {
            assert(shorter[i] == name[i]);
        }
        assert(!shorter.contains('/'));
        path_is_parted_at_its_last_slash(parent, shorter);
        assert(path.drop_last() =~= parent.push('/') + shorter);
        assert(path.last() == name[name.len() - 1]);
        assert(path.last() != '/');
        assert(shorter.push(name.last()) =~= name);
    }
}

/// A launcher in the directory `bin` of a bundle has that bundle as its root, and one in any other
/// directory has none.
pub proof fn bundle_is_above_the_launcher(root: Seq<char>, directory: Seq<char>, name: Seq<char>)
    requires
        root.len() > 0,
        !directory.contains('/'),
        !name.contains('/'),
    ensures
        directory == "bin"@ ==> sandbox_launcher::root_of(
            (root.push('/') + directory).push('/') + name,
        ) == Some(root),
        directory != "bin"@ ==> sandbox_launcher::root_of(
            (root.push('/') + directory).push('/') + name,
        ) is None,
{
    path_is_parted_at_its_last_slash(root.push('/') + directory, name);
    path_is_parted_at_its_last_slash(root, directory);
}

/// A file belongs to a bundle only where it was found, is a file, and lies within the bundle.
pub proof fn file_of_the_bundle_lies_within_it(root: Seq<char>, found: FoundFile)
    ensures
        sandbox_launcher::is_contained(root, Some(found)) ==> found.is_file && (found.resolved@
            == root || text::begins(found.resolved@, root + "/"@) || (root == "/"@ && text::begins(
            found.resolved@,
            "/"@,
        ))),
        found.is_file && text::begins(found.resolved@, root + "/"@)
            ==> sandbox_launcher::is_contained(root, Some(found)),
        !sandbox_launcher::is_contained(root, None),
{
}

} // verus!
