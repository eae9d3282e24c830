//! The names under which things are stored and published.

use vstd::prelude::*;

use crate::digest;
use crate::digest::{digest_text, hex_text, sha256};
use crate::json;
use crate::json::{canonical_bytes, Json};
use crate::text;
use crate::text::{chars_of, join2, join3, slice_text, starts_with};

verus! {

/// The stream of the queues.
pub const QUEUE_STREAM: &'static str = "TRADEASSEMBLY_QUEUE";

/// The stream of the events.
pub const EVENT_STREAM: &'static str = "TRADEASSEMBLY_EVENT";

/// The stream of the notices.
pub const BUS_STREAM: &'static str = "TRADEASSEMBLY_NOTIFY";

/// A name as a part of a subject: it holds only what a subject can hold, whatever the name
/// holds.
pub open spec fn component(value: Seq<char>) -> Seq<char> {
    "v1_"@ + digest::text_digest(value)
}

/// Writes a name as a part of a subject.
pub fn nats_component(value: &str) -> (r: String)
    ensures
        r@ == component(value@),
{
    let sum = digest_text(value);
    join2("v1_", sum.as_str())
}

/// An identifier that depends on its seed alone.
pub open spec fn identifier(prefix: Seq<char>, seed: Seq<char>) -> Seq<char> {
    prefix + "-"@ + digest::text_digest(seed)
}

/// Makes an identifier that depends on its seed alone.
pub fn stable_id(prefix: &str, seed: &str) -> (r: String)
    ensures
        r@ == identifier(prefix@, seed@),
{
    let sum = digest_text(seed);
    join3(prefix, "-", sum.as_str())
}

/// The hexadecimal digest of a value in its canonical form.
pub open spec fn bare_digest(bytes: Option<Seq<u8>>) -> Option<Seq<char>> {
    match bytes {
        Some(b) => Some(digest::hex(digest::sha256_of(b))),
        None => None,
    }
}

/// Computes the hexadecimal digest of a value in its canonical form.
pub fn canonical_hash(value: &Json) -> (r: Option<String>)
    ensures
        text::option_text(r) == bare_digest(json::canonical_json_of(value@)),
{
    match canonical_bytes(value) {
        Some(bytes) => {
            let sum = sha256(bytes.as_slice());
            Some(hex_text(&sum))
        },
        None => None,
    }
}

/// The subject of a queue.
pub fn queue_subject(queue: &str) -> (r: String)
    ensures
        r@ == "queue."@ + component(queue@),
{
    let name = nats_component(queue);
    join2("queue.", name.as_str())
}

/// The subject of a stream of events.
pub fn event_subject(stream: &str) -> (r: String)
    ensures
        r@ == "event."@ + component(stream@),
{
    let name = nats_component(stream);
    join2("event.", name.as_str())
}

/// The subject of a topic.
pub fn bus_subject(topic: &str) -> (r: String)
    ensures
        r@ == "notify."@ + component(topic@),
{
    let name = nats_component(topic);
    join2("notify.", name.as_str())
}

/// The name under which a queue is read.
pub fn consumer_name(queue: &str) -> (r: String)
    ensures
        r@ == "queue_"@ + component(queue@),
{
    let name = nats_component(queue);
    join2("queue_", name.as_str())
}

/// Where artifacts are kept: only files are.
pub fn file_artifact_root(endpoint: &str) -> (r: Result<String, String>)
    ensures
        match r {
            Ok(path) => text::begins(endpoint@, "file://"@) && path@ == endpoint@.skip(7),
            Err(e) => !text::begins(endpoint@, "file://"@) && e@
                == "public-core self_hosted currently requires file:// artifact storage"@,
        },
{
    if starts_with(endpoint, "file://") {
        let chars = chars_of(endpoint);
        proof {
            reveal_strlit("file://");
        }
        let path = slice_text(&chars, 7, chars.len());
        assert(path@ =~= endpoint@.skip(7));
        Ok(path)
    } else {
        Err("public-core self_hosted currently requires file:// artifact storage".to_owned())
    }
}

/// What the message of a failed operation says.
pub fn js_error(error: &str) -> (r: String)
    ensures
        r@ == "jetstream operation failed: "@ + error@,
{
    join2("jetstream operation failed: ", error)
}

/// What is said of a failed operation of the database: nothing but its code.
pub fn redacted_pg_error(code: &Option<String>) -> (r: String)
    ensures
        r@ == "postgres operation failed: "@ + (match *code {
            Some(c) => c@,
            None => "unknown"@,
        }),
{
    match code {
        Some(c) => join2("postgres operation failed: ", c.as_str()),
        None => join2("postgres operation failed: ", "unknown"),
    }
}

/// Two names share a part of a subject only where they share their digest.
pub proof fn components_differ_with_digests(a: Seq<char>, b: Seq<char>)
    requires
        digest::text_digest(a) != digest::text_digest(b),
    ensures
        component(a) != component(b),
{
    reveal_strlit("v1_");
    let x = digest::text_digest(a);
    let y = digest::text_digest(b);
    if component(a) == component(b) {
        assert(component(a).skip(3) =~= x);
        assert(component(b).skip(3) =~= y);
    }
}

} // verus!
