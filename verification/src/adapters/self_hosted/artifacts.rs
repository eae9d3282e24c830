//! Exported artifacts: their names, and what keeps them within their root.

use vstd::prelude::*;

use crate::digest;
use crate::digest::labelled_sha256;
use crate::text;
use crate::text::{join2, same, split, starts_with};

use super::naming;
use super::naming::stable_id;

verus! {

/// Whether a part of a path goes nowhere.
pub open spec fn is_idle(part: Seq<char>) -> bool {
    part.len() == 0 || part == "."@
}

/// Whether a reference names one thing right below a root.
pub open spec fn names_one(reference: Seq<char>) -> bool {
    let parts = text::split_on(reference, '/');
    !is_idle(parts[0]) && parts[0] != ".."@ && forall|i: int|
        1 <= i < parts.len() ==> is_idle(#[trigger] parts[i])
}

fn idle(part: &str) -> (r: bool)
    ensures
        r == is_idle(part@),
{
    proof {
        reveal_strlit("");
        if part@.len() == 0 {
            assert(part@ =~= ""@);
        }
    }
    same(part, "") || same(part, ".")
}

/// Checks that a reference names one thing right below the root of the artifacts.
pub fn check_artifact_ref(artifact_ref: &str) -> (r: Result<(), String>)
    ensures
        match r {
            Ok(_) => names_one(artifact_ref@),
            Err(e) => !names_one(artifact_ref@) && e@ == "artifact ref is unsupported"@,
        },
{
    let parts = split(artifact_ref, '/');
    let ghost shown = text::split_on(artifact_ref@, '/');
    proof {
        text::split_is_not_empty(artifact_ref@, '/');
        assert(text::texts(parts@) == shown);
        assert(shown[0] == parts@[0]@);
    }
    if idle(parts[0].as_str()) || same(parts[0].as_str(), "..") {
        return Err("artifact ref is unsupported".to_owned());
    }
    let mut i: usize = 1;
    while i < parts.len()
        invariant
            1 <= i <= parts@.len(),
            text::texts(parts@) == shown,
            shown == text::split_on(artifact_ref@, '/'),
            forall|j: int| 1 <= j < i ==> is_idle(#[trigger] shown[j]),
        decreases parts.len() - i,
    {
        assert(shown[i as int] == parts@[i as int]@);
        if !idle(parts[i].as_str()) {
            return Err("artifact ref is unsupported".to_owned());
        }
        i += 1;
    }
    Ok(())
}

/// Whether a resolved path lies within a resolved root.
pub open spec fn is_within(root: Seq<char>, path: Seq<char>) -> bool {
    path == root || text::begins(path, root + "/"@) || (root == "/"@ && text::begins(path, "/"@))
}

/// Tells whether a resolved path lies within a resolved root.
pub fn lies_within(root: &str, path: &str) -> (r: bool)
    ensures
        r == is_within(root@, path@),
{
    let below = join2(root, "/");
    same(path, root) || starts_with(path, below.as_str()) || (same(root, "/") && starts_with(
        path,
        "/",
    ))
}

/// Checks that what a reference resolves to lies within the root. `resolved` is the path,
/// where there is one.
pub fn check_resolved(root: &str, resolved: &Option<String>) -> (r: Result<String, String>)
    ensures
        match *resolved {
            None => r matches Err(e) && e@ == "read export artifact failed"@,
            Some(path) => if is_within(root@, path@) {
                r matches Ok(p) && p@ == path@
            } else {
                r matches Err(e) && e@ == "artifact ref escapes configured root"@
            },
        },
{
    match resolved {
        None => Err("read export artifact failed".to_owned()),
        Some(path) => if lies_within(root, path.as_str()) {
            Ok(path.clone())
        } else {
            Err("artifact ref escapes configured root".to_owned())
        },
    }
}

/// An artifact that was written.
#[derive(Debug)]
pub struct ExportArtifact {
    pub artifact_ref: String,
    pub content_type: String,
    pub size_bytes: u64,
    pub sha256: String,
}

/// The reference of an artifact.
pub open spec fn reference_of(key: Seq<char>) -> Seq<char> {
    naming::identifier("artifact"@, key)
}

/// Names an artifact.
pub fn artifact_ref(key: &str) -> (r: String)
    ensures
        r@ == reference_of(key@),
{
    stable_id("artifact", key)
}

/// Describes an artifact that was written.
pub fn describe_artifact(key: &str, content_type: &str, bytes: &[u8]) -> (r: ExportArtifact)
    ensures
        r.artifact_ref@ == reference_of(key@),
        r.content_type@ == content_type@,
        r.size_bytes == bytes@.len(),
        r.sha256@ == digest::labelled_digest(bytes@),
{
    ExportArtifact {
        artifact_ref: artifact_ref(key),
        content_type: content_type.to_owned(),
        size_bytes: bytes.len() as u64,
        sha256: labelled_sha256(bytes),
    }
}

proof fn no_slash_splits_to_itself(s: Seq<char>)
    requires
        forall|i: int| 0 <= i < s.len() ==> #[trigger] s[i] != '/',
    ensures
        text::split_on(s, '/') == seq![s],
    decreases s.len(),
{
    if s.len() > 0 {
        no_slash_splits_to_itself(s.drop_last());
        assert(s.last() == s[s.len() - 1]);
        assert(s.drop_last().push(s.last()) =~= s);
        assert(text::split_on(s, '/') =~= seq![s]);
    } else {
        assert(s =~= Seq::empty());
        assert(text::split_on(s, '/') =~= seq![s]);
    }
}

/// What is written can be read: every reference that names an artifact is one that a read
/// accepts.
pub proof fn written_reference_is_readable(key: Seq<char>)
    ensures
        names_one(reference_of(key)),
{
    reveal_strlit("artifact");
    reveal_strlit("-");
    reveal_strlit(".");
    reveal_strlit("..");
    let reference = reference_of(key);
    let sum = digest::sha256_of(vstd::utf8::encode_utf8(key));
    assert forall|i: int| 0 <= i < reference.len() implies #[trigger] reference[i] != '/' by {
        if i >= 9 {
            let k = i - 9;
            assert(reference[i] == digest::hex(sum)[k]);
            assert(digest::hex(sum)[k] == digest::hex_char(
                if k % 2 == 0 {
                    (sum[k / 2] / 16) as int
                } else {
                    (sum[k / 2] % 16) as int
                },
            ));
        }
    }
    no_slash_splits_to_itself(reference);
    assert(reference.len() >= 9);
}

} // verus!
