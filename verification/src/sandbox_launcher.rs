//! How the bundled sandbox is found from its launcher, and what of the environment it is
//! given. A file outside the bundle is never run.

pub mod bundle;

use vstd::prelude::*;

use crate::adapters::self_hosted::artifacts;
use crate::adapters::self_hosted::artifacts::lies_within;
use crate::agent_launchd;
use crate::agent_launchd::path_below;
use crate::text;
use crate::text::{chars_of, copy_list, same, slice_text};

verus! {

/// Where programs are searched.
pub const SYSTEM_PATH: &'static str = "/usr/bin:/bin:/usr/sbin:/sbin";

/// Where the bundled interpreter is.
pub const NODE_RELATIVE: &'static str = "runtime/node/bin/node";

/// Where the bundled program is.
pub const CLI_RELATIVE: &'static str =
    "runtime/node_modules/@anthropic-ai/sandbox-runtime/dist/cli.js";

/// A path without its last part, and that part; nothing where there is none.
pub open spec fn parted(path: Seq<char>) -> Option<(Seq<char>, Seq<char>)>
    decreases path.len(),
{
    if path.len() == 0 {
        None
    } else if path.last() == '/' {
        Some((path.drop_last(), Seq::empty()))
    } else {
        match parted(path.drop_last()) {
            Some((parent, name)) => Some((parent, name.push(path.last()))),
            None => None,
        }
    }
}

proof fn slash_parts(path: Seq<char>, at: int)
    requires
        0 <= at < path.len(),
        path[at] == '/',
        forall|i: int| at < i < path.len() ==> #[trigger] path[i] != '/',
    ensures
        parted(path) == Some((path.take(at), path.skip(at + 1))),
    decreases path.len(),
{
    if at == path.len() - 1 {
        assert(path.drop_last() =~= path.take(at));
        assert(path.skip(at + 1) =~= Seq::empty());
    } else {
        let shorter = path.drop_last();
        assert(path.last() == path[path.len() - 1]);
        slash_parts(shorter, at);
        assert(shorter.take(at) =~= path.take(at));
        assert(shorter.skip(at + 1).push(path.last()) =~= path.skip(at + 1));
    }
}

proof fn no_slash_no_parts(path: Seq<char>)
    requires
        forall|i: int| 0 <= i < path.len() ==> #[trigger] path[i] != '/',
    ensures
        parted(path) is None,
    decreases path.len(),
{
    if path.len() > 0 {
        assert(path.last() == path[path.len() - 1]);
        no_slash_no_parts(path.drop_last());
    }
}

fn part_path(path: &str) -> (r: Option<(String, String)>)
    ensures
        match (r, parted(path@)) {
            (Some((parent, name)), Some((p, n))) => parent@ == p && name@ == n,
            (None, None) => true,
            _ => false,
        },
{
    let chars = chars_of(path);
    let mut n: usize = chars.len();
    while n > 0
        invariant
            n <= chars@.len(),
            chars@ == path@,
            forall|i: int| n <= i < chars@.len() ==> #[trigger] path@[i] != '/',
        decreases n,
    {
        if chars[n - 1] == '/' {
            proof {
                slash_parts(path@, n - 1);
            }
            let parent = slice_text(&chars, 0, n - 1);
            let name = slice_text(&chars, n, chars.len());
            proof {
                assert(parent@ =~= path@.take(n - 1));
                assert(name@ =~= path@.skip(n as int));
            }
            return Some((parent, name));
        }
        n -= 1;
    }
    proof {
        no_slash_no_parts(path@);
    }
    None
}

/// A directory by its name: the root where nothing is left of it.
pub open spec fn directory(path: Seq<char>) -> Seq<char> {
    if path.len() == 0 {
        "/"@
    } else {
        path
    }
}

/// The root of the bundle of a launcher, whose path is resolved: the directory above
/// `bin`, where the launcher has to stand.
pub open spec fn root_of(executable: Seq<char>) -> Option<Seq<char>> {
    match parted(executable) {
        Some((bin, _)) => match parted(bin) {
            Some((root, name)) => if name == "bin"@ {
                Some(directory(root))
            } else {
                None
            },
            None => None,
        },
        None => None,
    }
}

/// Finds the root of the bundle of a launcher.
pub fn bundle_root(executable: &str) -> (r: Option<String>)
    ensures
        text::option_text(r) == root_of(executable@),
{
    match part_path(executable) {
        Some((bin, _)) => match part_path(bin.as_str()) {
            Some((root, name)) => if same(name.as_str(), "bin") {
                proof {
                    reveal_strlit("");
                    if root@.len() == 0 {
                        assert(root@ =~= ""@);
                    }
                }
                if same(root.as_str(), "") {
                    Some("/".to_owned())
                } else {
                    Some(root)
                }
            } else {
                None
            },
            None => None,
        },
        None => None,
    }
}

/// Where the two files of a bundle are to be looked for.
pub fn bundle_candidates(root: &str) -> (r: (String, String))
    ensures
        r.0@ == agent_launchd::below(root@, NODE_RELATIVE@),
        r.1@ == agent_launchd::below(root@, CLI_RELATIVE@),
{
    (path_below(root, NODE_RELATIVE), path_below(root, CLI_RELATIVE))
}

/// The two files of a bundle.
#[derive(Debug)]
pub struct BundlePaths {
    pub node: String,
    pub cli: String,
}

/// What stands where a file was looked for: its resolved path, and whether it is a file.
#[derive(Debug)]
pub struct FoundFile {
    pub resolved: String,
    pub is_file: bool,
}

/// Whether a file that was found belongs to the bundle.
pub open spec fn is_contained(root: Seq<char>, found: Option<FoundFile>) -> bool {
    found matches Some(f) && artifacts::is_within(root, f.resolved@) && f.is_file
}

/// Takes a file that belongs to the bundle.
pub fn contained_file(root: &str, found: &Option<FoundFile>) -> (r: Option<String>)
    ensures
        match r {
            Some(path) => is_contained(root@, *found) && path@ == found->Some_0.resolved@,
            None => !is_contained(root@, *found),
        },
{
    match found {
        Some(f) => if lies_within(root, f.resolved.as_str()) && f.is_file {
            Some(f.resolved.clone())
        } else {
            None
        },
        None => None,
    }
}

/// Takes the two files of a bundle: both have to be there and to belong to it.
pub fn resolve_bundle_paths(root: &str, node: &Option<FoundFile>, cli: &Option<FoundFile>) -> (r: Option<
    BundlePaths,
>)
    ensures
        match r {
            Some(paths) => is_contained(root@, *node) && is_contained(root@, *cli) && paths.node@
                == node->Some_0.resolved@ && paths.cli@ == cli->Some_0.resolved@,
            None => !(is_contained(root@, *node) && is_contained(root@, *cli)),
        },
{
    let node_path = contained_file(root, node)?;
    let cli_path = contained_file(root, cli)?;
    Some(BundlePaths { node: node_path, cli: cli_path })
}

/// The variables that the sandbox is given as they are.
pub open spec fn kept_names() -> Seq<Seq<char>> {
    seq!["HOME"@, "TMPDIR"@, "SSL_CERT"@, "SSL_CERT_FILE"@, "SSL_CERT_DIR"@]
}

/// Lists the variables that the sandbox is given as they are.
pub fn kept_variables() -> (r: Vec<&'static str>)
    ensures
        r@.map_values(|n: &'static str| n@) == kept_names(),
{
    let names: Vec<&'static str> = vec![
        "HOME",
        "TMPDIR",
        "SSL_CERT",
        "SSL_CERT_FILE",
        "SSL_CERT_DIR",
    ];
    assert(names@.map_values(|n: &'static str| n@) =~= kept_names());
    names
}

/// What the sandbox is given: the arguments that follow the name of the launcher, as they
/// are.
pub fn forwarded_args(args: &Vec<String>) -> (r: Vec<String>)
    ensures
        text::texts(r@) == text::texts(args@),
{
    copy_list(args)
}

} // verus!
