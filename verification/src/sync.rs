//! Path translation between endpoint namespaces, the event model of the
//! sync engine, and the decoding of audit records into sync events.
use vstd::prelude::*;
use vstd::string::StrSliceExecFns;
use vstd::string::StringExecFns;

use crate::audit::AuditLog;
use crate::config::EngineVersion;
use crate::text::contains_str;
use crate::text::find_char_from;
use crate::text::str_concat;
use crate::text::str_ends_with_char;
use crate::text::str_eq;
use crate::text::str_starts_with;

verus! {

/// Canonical, endpoint-agnostic identity of a secret: the mount it lives
/// under and its logical path below that mount.
#[derive(Debug, Clone)]
pub struct SecretPath {
    pub mount: String,
    pub path: String,
}

/// One event on the sync queue: a discovered or changed secret, or the
/// sentinel that closes a discovery pass.
#[derive(Debug, Clone)]
pub enum SecretOp {
    Create(SecretPath),
    Update(SecretPath),
    Delete(SecretPath),
    FullSyncFinished,
}

/// Counters the reconciler accumulates over one discovery cycle.
#[derive(Debug, Clone, Copy, PartialEq, Eq, Structural)]
pub struct SyncStats {
    pub updated: u64,
    pub deleted: u64,
}

impl SyncStats {
    /// Fresh counters, all zero.
    pub fn new() -> (s: SyncStats)
        ensures
            s.updated == 0,
            s.deleted == 0,
    {
        SyncStats { updated: 0, deleted: 0 }
    }

    /// Zero the counters again, as done at every cycle end.
    pub fn reset(&mut self)
        ensures
            final(self).updated == 0,
            final(self).deleted == 0,
    {
        self.updated = 0;
        self.deleted = 0;
    }
}

/// A normalized prefix: empty stays empty, anything else ends in the
/// separator.
pub open spec fn spec_normalize_prefix(p: Seq<char>) -> Seq<char> {
    if p.len() == 0 {
        p
    } else if p.last() == '/' {
        p
    } else {
        p.push('/')
    }
}

/// Ensure a non-empty prefix ends with the path separator.
pub fn normalize_prefix(prefix: &str) -> (r: String)
    ensures
        r@ == spec_normalize_prefix(prefix@),
{
    let n = prefix.unicode_len();
    if n == 0 {
        let r = String::new();
        proof {
            assert(r@ =~= prefix@);
        }
        r
    } else if str_ends_with_char(prefix, '/') {
        String::from_str(prefix)
    } else {
        let r = str_concat(prefix, "/");
        proof {
            reveal_strlit("/");
            assert(prefix@ + "/"@ =~= prefix@.push('/'));
        }
        r
    }
}

/// The translation of a source logical path into the destination namespace:
/// one leading occurrence of the source prefix is stripped, then the
/// destination prefix is prepended. Both prefixes are pre-normalized.
pub open spec fn spec_translate_path(
    src_prefix: Seq<char>,
    dst_prefix: Seq<char>,
    path: Seq<char>,
) -> Seq<char> {
    if src_prefix.len() > 0 && src_prefix.is_prefix_of(path) {
        dst_prefix + path.skip(src_prefix.len() as int)
    } else {
        dst_prefix + path
    }
}

/// Map a source logical path to its destination logical path. Prefixes must
/// be normalized.
pub fn secret_src_to_dst_path(src_prefix: &str, dst_prefix: &str, path: &str) -> (r: String)
    ensures
        r@ == spec_translate_path(src_prefix@, dst_prefix@, path@),
{
    let np = src_prefix.unicode_len();
    if np > 0 && str_starts_with(path, src_prefix) {
        let stripped = path.substring_char(np, path.unicode_len());
        str_concat(dst_prefix, stripped)
    } else {
        str_concat(dst_prefix, path)
    }
}

/// A separator stands at position `i` of `s`.
pub open spec fn slash_at(s: Seq<char>, i: int) -> bool {
    0 <= i < s.len() && s[i] == '/'
}

/// Position `i` holds the first separator of `s`.
pub open spec fn first_slash_at(s: Seq<char>, i: int) -> bool {
    slash_at(s, i) && forall|j: int| 0 <= j < i ==> s[j] != '/'
}

/// Split a native path at its first separator into (mount, remainder), or
/// nothing when it holds no separator.
pub open spec fn spec_split_mount(s: Seq<char>) -> Option<(Seq<char>, Seq<char>)> {
    if exists|i: int| slash_at(s, i) {
        let i = choose|i: int| first_slash_at(s, i);
        Option::Some((s.take(i), s.skip(i + 1)))
    } else {
        Option::None
    }
}

/// A sequence with a separator somewhere has a first separator.
proof fn lemma_first_slash_exists(s: Seq<char>, i0: int)
    requires
        slash_at(s, i0),
    ensures
        exists|i: int| first_slash_at(s, i),
    decreases i0,
{
    if forall|j: int| 0 <= j < i0 ==> s[j] != '/' {
        assert(first_slash_at(s, i0));
    } else {
        let j = choose|j: int| 0 <= j < i0 && s[j] == '/';
        lemma_first_slash_exists(s, j);
    }
}

/// The first separator's position is unique.
proof fn lemma_first_slash_unique(s: Seq<char>, i: int, j: int)
    requires
        first_slash_at(s, i),
        first_slash_at(s, j),
    ensures
        i == j,
{
    if i < j {
        assert(s[i] != '/');
    }
    if j < i {
        assert(s[j] != '/');
    }
}

/// The parse of a native path under the v1 convention:
/// `mount/logical/path` becomes (`mount`, `logical/path`).
pub open spec fn spec_secret_path_v1(s: Seq<char>) -> Option<(Seq<char>, Seq<char>)> {
    spec_split_mount(s)
}

/// The parse of a native path under the v2 convention:
/// `mount/data/logical/path` becomes (`mount`, `logical/path`); a second
/// segment other than `data` is unsupported and parses to nothing.
pub open spec fn spec_secret_path_v2(s: Seq<char>) -> Option<(Seq<char>, Seq<char>)> {
    match spec_split_mount(s) {
        Option::None => Option::None,
        Option::Some((mount, rest)) => match spec_split_mount(rest) {
            Option::None => Option::None,
            Option::Some((seg, tail)) => if seg == "data"@ {
                Option::Some((mount, tail))
            } else {
                Option::None
            },
        },
    }
}

/// The executable parse result agrees with the mathematical one.
pub open spec fn matches_pair(r: Option<(String, String)>, s: Option<(Seq<char>, Seq<char>)>) -> bool {
    match (r, s) {
        (Option::None, Option::None) => true,
        (Option::Some(p), Option::Some(q)) => p.0@ == q.0 && p.1@ == q.1,
        _ => false,
    }
}

/// Split a native path at its first separator, as `spec_split_mount` does.
fn split_mount(path: &str) -> (r: Option<(String, String)>)
    ensures
        matches_pair(r, spec_split_mount(path@)),
{
    let n = path.unicode_len();
    match find_char_from(path, '/', 0) {
        Option::Some(i) => {
            let mount = path.substring_char(0, i);
            let rest = path.substring_char(i + 1, n);
            proof {
                assert(slash_at(path@, i as int));
                assert(first_slash_at(path@, i as int));
                lemma_first_slash_exists(path@, i as int);
                let k = choose|k: int| first_slash_at(path@, k);
                lemma_first_slash_unique(path@, i as int, k);
                assert(mount@ =~= path@.take(i as int));
                assert(rest@ =~= path@.skip(i as int + 1));
            }
            Option::Some((String::from_str(mount), String::from_str(rest)))
        },
        Option::None => {
            proof {
                assert(!exists|i: int| slash_at(path@, i));
            }
            Option::None
        },
    }
}

/// Parse a v1 native path into (mount, logical path); a path of fewer than
/// two segments parses to nothing.
pub fn secret_path_v1(path: &str) -> (r: Option<(String, String)>)
    ensures
        matches_pair(r, spec_secret_path_v1(path@)),
{
    split_mount(path)
}

/// Parse a v2 native path into (mount, logical path); the second segment
/// must be `data`, and fewer than three segments parse to nothing.
pub fn secret_path_v2(path: &str) -> (r: Option<(String, String)>)
    ensures
        matches_pair(r, spec_secret_path_v2(path@)),
{
    match split_mount(path) {
        Option::Some((mount, rest)) => {
            match split_mount(rest.as_str()) {
                Option::Some((seg, tail)) => {
                    if str_eq(seg.as_str(), "data") {
                        Option::Some((mount, tail))
                    } else {
                        Option::None
                    }
                },
                Option::None => Option::None,
            }
        },
        Option::None => Option::None,
    }
}

/// The parse of a native path under the configured engine version.
pub open spec fn spec_parse_native_path(version: EngineVersion, path: Seq<char>) -> Option<
    (Seq<char>, Seq<char>),
> {
    match version {
        EngineVersion::V1 => spec_secret_path_v1(path),
        EngineVersion::V2 => spec_secret_path_v2(path),
    }
}

/// The mount is one of the configured source mounts.
pub open spec fn spec_mount_tracked(mounts: Seq<String>, mount: Seq<char>) -> bool {
    exists|k: int| 0 <= k < mounts.len() && #[trigger] mounts[k]@ == mount
}

/// The operation named by an audit record that the engine mirrors.
pub open spec fn spec_tracked_op(op: Seq<char>) -> bool {
    op == "create"@ || op == "update"@ || op == "delete"@
}

/// An audit record describes a change the engine must mirror: a response
/// record of a key-value mount, naming a tracked operation, whose native
/// path parses to a configured mount and a logical path under the source
/// prefix.
pub open spec fn spec_record_selected(
    mounts: Seq<String>,
    prefix: Seq<char>,
    version: EngineVersion,
    log: AuditLog,
) -> bool {
    &&& log.log_type@ == "response"@
    &&& log.request.mount_type@ == "kv"@
    &&& spec_tracked_op(log.request.operation@)
    &&& match spec_parse_native_path(version, log.request.path@) {
        Option::Some(p) => spec_mount_tracked(mounts, p.0) && prefix.is_prefix_of(p.1),
        Option::None => false,
    }
}

/// Decode one audit record into the sync event it calls for, or nothing for
/// a record the engine ignores. The event's variant follows the record's
/// operation one to one, and its payload is the parsed (mount, path) pair.
pub fn audit_log_op(mounts: &Vec<String>, prefix: &str, version: &EngineVersion, log: &AuditLog) -> (r:
    Option<SecretOp>)
    ensures
        r is Some <==> spec_record_selected(mounts@, prefix@, *version, *log),
        match r {
            Option::Some(op) => match op {
                SecretOp::Create(sp) => log.request.operation@ == "create"@ && (
                spec_parse_native_path(*version, log.request.path@) matches Option::Some(q)
                    && sp.mount@ == q.0 && sp.path@ == q.1),
                SecretOp::Update(sp) => log.request.operation@ == "update"@ && (
                spec_parse_native_path(*version, log.request.path@) matches Option::Some(q)
                    && sp.mount@ == q.0 && sp.path@ == q.1),
                SecretOp::Delete(sp) => log.request.operation@ == "delete"@ && (
                spec_parse_native_path(*version, log.request.path@) matches Option::Some(q)
                    && sp.mount@ == q.0 && sp.path@ == q.1),
                SecretOp::FullSyncFinished => false,
            },
            Option::None => true,
        },
{
    if !str_eq(log.log_type.as_str(), "response") {
        return Option::None;
    }
    if !str_eq(log.request.mount_type.as_str(), "kv") {
        return Option::None;
    }
    let op_create = str_eq(log.request.operation.as_str(), "create");
    let op_update = str_eq(log.request.operation.as_str(), "update");
    let op_delete = str_eq(log.request.operation.as_str(), "delete");
    if !op_create && !op_update && !op_delete {
        return Option::None;
    }
    let parsed = match version {
        EngineVersion::V1 => secret_path_v1(log.request.path.as_str()),
        EngineVersion::V2 => secret_path_v2(log.request.path.as_str()),
    };
    match parsed {
        Option::Some((mount, lpath)) => {
            if !contains_str(mounts, mount.as_str()) {
                return Option::None;
            }
            if !str_starts_with(lpath.as_str(), prefix) {
                return Option::None;
            }
            let sp = SecretPath { mount, path: lpath };
            if op_create {
                Option::Some(SecretOp::Create(sp))
            } else if op_update {
                Option::Some(SecretOp::Update(sp))
            } else {
                Option::Some(SecretOp::Delete(sp))
            }
        },
        Option::None => Option::None,
    }
}

/// Whether the device list names `name` with the trailing separator, the
/// shape under which the endpoint's registry reports audit devices.
pub fn device_registered(devices: &Vec<String>, name: &str) -> (r: bool)
    ensures
        r == (exists|k: int|
            0 <= k < devices@.len() && #[trigger] devices@[k]@ == name@ + "/"@),
{
    let full = str_concat(name, "/");
    contains_str(devices, full.as_str())
}

/// Translating a path a second time, with the source and destination
/// prefixes equal, gives the same result as translating it once: repeated
/// reconciliation through equal namespaces cannot drift a path.
pub proof fn lemma_translate_path_idempotent(prefix: Seq<char>, path: Seq<char>)
    ensures
        spec_translate_path(prefix, prefix, spec_translate_path(prefix, prefix, path))
            == spec_translate_path(prefix, prefix, path),
{
    let t = spec_translate_path(prefix, prefix, path);
    if prefix.len() == 0 {
        assert(t =~= path);
        assert(spec_translate_path(prefix, prefix, t) =~= t);
    } else {
        if prefix.is_prefix_of(path) {
            assert(t =~= prefix + path.skip(prefix.len() as int));
        } else {
            assert(t =~= prefix + path);
        }
        let rest = t.skip(prefix.len() as int);
        assert(prefix =~= t.subrange(0, prefix.len() as int));
        assert(prefix.is_prefix_of(t));
        assert(spec_translate_path(prefix, prefix, t) =~= prefix + rest);
        assert(prefix + rest =~= t);
    }
}

} // verus!
