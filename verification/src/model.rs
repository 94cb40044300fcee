//! The abstract semantics of the directory operations, and the laws
//! that hold of them.
//!
//! The filesystem itself stands outside the verified boundary, so its
//! state is modelled abstractly: whether the root directory tree
//! exists, and the regular files currently under it, each with its
//! full content. Every operation's intended effect is a function of
//! that state, and the laws below are proved of those functions. One
//! open descriptor is modelled as a cursor: content plus the implicit
//! file position that seeks and reads move.

use vstd::prelude::*;

verus! {

/// An abstract snapshot of the directory's world: whether the root
/// directory tree exists on disk, and the files under it by their
/// resolved path.
pub ghost struct FsModel {
    pub root_exists: bool,
    pub files: Map<Seq<char>, Seq<u8>>,
}

/// A directory state is well-formed when no file exists under a root
/// that was never created.
pub open spec fn sp_wf(m: FsModel) -> bool {
    !m.root_exists ==> m.files == Map::<Seq<char>, Seq<u8>>::empty()
}

/// Whether the path currently names a file.
pub open spec fn sp_exists(m: FsModel, p: Seq<char>) -> bool {
    m.files.contains_key(p)
}

/// The content a read handle or a whole-file read observes: the
/// file's bytes, or nothing when the path names no file.
pub open spec fn sp_lookup(m: FsModel, p: Seq<char>) -> Option<Seq<u8>> {
    if m.files.contains_key(p) {
        Some(m.files[p])
    } else {
        None
    }
}

/// Whether opening a write sink succeeds: creation is exclusive, so
/// it does exactly when the path names no file yet.
pub open spec fn sp_open_write_ok(m: FsModel, p: Seq<char>) -> bool {
    !m.files.contains_key(p)
}

/// The state after an attempt to open a write sink: the root
/// directory tree is materialized first in either case; on success
/// the file is created empty, on failure nothing else changes.
pub open spec fn sp_open_write_state(m: FsModel, p: Seq<char>) -> FsModel {
    if m.files.contains_key(p) {
        FsModel { root_exists: true, files: m.files }
    } else {
        FsModel { root_exists: true, files: m.files.insert(p, Seq::empty()) }
    }
}

/// A write sink bound to one newly created file, accumulating the
/// bytes written so far: writes append sequentially.
pub ghost struct SinkModel {
    pub path: Seq<char>,
    pub written: Seq<u8>,
}

/// The sink a successful `open_write` returns: bound to the path,
/// nothing written yet.
pub open spec fn sp_open_write_sink(p: Seq<char>) -> SinkModel {
    SinkModel { path: p, written: Seq::empty() }
}

/// A write appends its bytes to what the sink accumulated.
pub open spec fn sp_sink_write(s: SinkModel, buf: Seq<u8>) -> SinkModel {
    SinkModel { path: s.path, written: s.written + buf }
}

/// Termination flushes the accumulated bytes: the file then holds
/// exactly what was written through the sink.
pub open spec fn sp_sink_terminate(m: FsModel, s: SinkModel) -> FsModel {
    FsModel { root_exists: m.root_exists, files: m.files.insert(s.path, s.written) }
}

/// The state after a whole-file replace: the root directory tree is
/// materialized and the file holds exactly the new bytes, whether or
/// not it existed before.
pub open spec fn sp_atomic_write(m: FsModel, p: Seq<char>, data: Seq<u8>) -> FsModel {
    FsModel { root_exists: true, files: m.files.insert(p, data) }
}

/// Whether deletion succeeds: it does exactly when the path names a
/// file.
pub open spec fn sp_delete_ok(m: FsModel, p: Seq<char>) -> bool {
    m.files.contains_key(p)
}

/// The state after an attempt to delete: the file is removed when it
/// was there, and nothing changes when it was not.
pub open spec fn sp_delete_state(m: FsModel, p: Seq<char>) -> FsModel {
    if m.files.contains_key(p) {
        FsModel { root_exists: m.root_exists, files: m.files.remove(p) }
    } else {
        m
    }
}

/// The bytes of the half-open range `[start, end)` of a file's
/// content.
pub open spec fn sp_read_range(content: Seq<u8>, start: int, end: int) -> Seq<u8>
    recommends
        0 <= start <= end <= content.len(),
{
    content.subrange(start, end)
}

/// One open descriptor: the file's content and the implicit position
/// that seeks and reads move. The position is shared by every reader
/// of the handle, which is why seek-and-read must be serialized.
pub ghost struct FileCursor {
    pub content: Seq<u8>,
    pub pos: int,
}

/// A seek moves only the position.
pub open spec fn sp_seek(c: FileCursor, to: int) -> FileCursor {
    FileCursor { content: c.content, pos: to }
}

/// An exact read returns the `n` bytes at the position and advances
/// the position past them.
pub open spec fn sp_read_exact(c: FileCursor, n: int) -> (FileCursor, Seq<u8>)
    recommends
        0 <= c.pos,
        c.pos + n <= c.content.len(),
{
    (
        FileCursor { content: c.content, pos: c.pos + n },
        c.content.subrange(c.pos, c.pos + n),
    )
}

/// One `read_bytes(start..end)` operation, as the handle serializes
/// it: seek to `start`, then read exactly `end - start` bytes.
pub open spec fn sp_read_bytes(c: FileCursor, start: int, end: int) -> (FileCursor, Seq<u8>)
    recommends
        0 <= start <= end <= c.content.len(),
{
    sp_read_exact(sp_seek(c, start), end - start)
}

/// A path that was never created is reported absent: the existence
/// test answers false and opening a read handle finds no file.
pub proof fn lemma_absent_path_not_readable(m: FsModel, p: Seq<char>)
    requires
        !m.files.contains_key(p),
    ensures
        !sp_exists(m, p),
        sp_lookup(m, p) is None,
{
}

/// Opening the same path for writing twice, with no deletion in
/// between, succeeds the first time and fails with already-exists the
/// second time, which changes nothing further.
pub proof fn lemma_open_write_twice_fails(m: FsModel, p: Seq<char>)
    requires
        !m.files.contains_key(p),
    ensures
        sp_open_write_ok(m, p),
        !sp_open_write_ok(sp_open_write_state(m, p), p),
        sp_open_write_state(sp_open_write_state(m, p), p) == sp_open_write_state(m, p),
{
}

/// After a fresh write sink on `p` accepts the bytes `b` and
/// terminates, a read handle on `p` observes exactly `b`: its length
/// is `b`'s length and reading the full range `[0, len(b))` returns
/// `b`.
pub proof fn lemma_write_then_read_back(m: FsModel, p: Seq<char>, b: Seq<u8>)
    requires
        sp_open_write_ok(m, p),
    ensures
        ({
            let m1 = sp_open_write_state(m, p);
            let s = sp_sink_write(sp_open_write_sink(p), b);
            sp_lookup(sp_sink_terminate(m1, s), p) == Some(b)
        }),
        sp_read_range(b, 0, b.len() as int) == b,
{
    assert(Seq::<u8>::empty() + b =~= b);
    assert(b.subrange(0, b.len() as int) =~= b);
}

/// Replacing a file's whole content twice and then reading it back
/// yields the second content in full, with no residue of the first.
pub proof fn lemma_atomic_write_overwrites(m: FsModel, p: Seq<char>, d1: Seq<u8>, d2: Seq<u8>)
    ensures
        sp_lookup(sp_atomic_write(sp_atomic_write(m, p, d1), p, d2), p) == Some(d2),
{
}

/// Deleting an existing file makes the path absent afterward;
/// deleting an absent file fails with not-found and changes nothing.
pub proof fn lemma_delete(m: FsModel, p: Seq<char>)
    ensures
        sp_exists(m, p) ==> sp_delete_ok(m, p) && !sp_exists(sp_delete_state(m, p), p),
        !sp_exists(m, p) ==> !sp_delete_ok(m, p) && sp_delete_state(m, p) == m,
{
}

/// No directory entry appears before the first write-triggering call:
/// against a never-materialized root, the existence test, read-handle
/// opening, whole-file reading and deletion all report not-found and
/// leave the state exactly as it was.
pub proof fn lemma_reads_do_not_materialize(m: FsModel, p: Seq<char>)
    requires
        sp_wf(m),
        !m.root_exists,
    ensures
        !sp_exists(m, p),
        sp_lookup(m, p) is None,
        !sp_delete_ok(m, p),
        sp_delete_state(m, p) == m,
{
    assert(!Map::<Seq<char>, Seq<u8>>::empty().dom().contains(p));
}

/// The write-triggering calls are the ones that materialize the root
/// directory tree, and every operation leaves a well-formed state
/// well-formed.
pub proof fn lemma_writes_materialize(m: FsModel, p: Seq<char>, data: Seq<u8>)
    requires
        sp_wf(m),
    ensures
        sp_open_write_state(m, p).root_exists,
        sp_atomic_write(m, p, data).root_exists,
        sp_wf(sp_open_write_state(m, p)),
        sp_wf(sp_atomic_write(m, p, data)),
        sp_wf(sp_delete_state(m, p)),
        m.root_exists ==> sp_wf(sp_sink_terminate(m, sp_sink_write(sp_open_write_sink(p), data))),
{
}

/// Serialized `read_bytes` calls on one shared descriptor each return
/// the bytes of their own range, in whatever order the calls are
/// serialized: every call seeks before it reads, so the position left
/// behind by one call never leaks into another call's result, and no
/// read changes the content.
pub proof fn lemma_serialized_reads_independent(
    c: FileCursor,
    s1: int,
    e1: int,
    s2: int,
    e2: int,
)
    requires
        0 <= s1 <= e1 <= c.content.len(),
        0 <= s2 <= e2 <= c.content.len(),
    ensures
        sp_read_bytes(c, s1, e1).1 == sp_read_range(c.content, s1, e1),
        sp_read_bytes(sp_read_bytes(c, s1, e1).0, s2, e2).1 == sp_read_range(c.content, s2, e2),
        sp_read_bytes(sp_read_bytes(c, s1, e1).0, s2, e2).0.content == c.content,
{
}

} // verus!
