//! The filesystem facade: the command buffer, the inode table, the named
//! control files, and the state transitions that lookups and reads trigger.

use vstd::prelude::*;
use vstd::string::StringSliceAdditionalSpecFns;
use std::collections::HashMap;
use std::sync::mpsc::{Receiver, Sender};
use crate::bytes::{append_bytes, append_str_bytes, bytes_eq, copy_bytes, str_bytes_vec};
use crate::hex::{hex_decode, spec_hex_decode};
use crate::shell::{
    lossy_of, lossy_utf8, spec_diagnostics_json, Command, ExecutionResult, FinishedCommand,
    FinishedExecution,
};

verus! {

/// Why a facade operation could not complete.
#[derive(Clone, Copy, Debug, PartialEq, Eq, Structural)]
pub enum FsError {
    /// No entry is realized under the requested name or inode.
    NoSuchEntry,
    /// A channel to the worker pool is gone; the peer has exited.
    ChannelClosed,
    /// A `Termination` arrived where an `Execution` was owed: an unpaired
    /// terminate-all ran concurrently.
    UnexpectedTermination,
}

/// Relies on mpsc `Sender::send`: delivers the command to the pool's
/// receive end, failing only when the receiver is gone. Nothing is assumed
/// of the outcome.
#[verifier::external_body]
fn send_command(ch: &Sender<Command>, cmd: Command) -> (ok: bool) {
    ch.send(cmd).is_ok()
}

/// Relies on mpsc `Receiver::recv`: blocks until one result arrives,
/// yielding nothing only when every sender is gone. Nothing is assumed of
/// which result comes back.
#[verifier::external_body]
fn recv_result(ch: &Receiver<FinishedCommand>) -> (r: Option<FinishedCommand>) {
    ch.recv().ok()
}

/// Relies on mpsc `Receiver::recv`, called repeatedly: discards results
/// until one `Termination` marker arrives, and reports failure only when
/// the channel closes first. The loop lives here because no bound on the
/// number of discarded messages exists.
#[verifier::external_body]
fn drain_until_termination(ch: &Receiver<FinishedCommand>) -> (ok: bool) {
    loop {
        match ch.recv() {
            Err(_) => return false,
            Ok(FinishedCommand::Termination) => return true,
            Ok(FinishedCommand::Execution(_)) => {},
        }
    }
}

/// True when the byte occurs in the sequence.
pub open spec fn spec_has_byte(s: Seq<u8>, c: u8) -> bool {
    exists|i: int| 0 <= i < s.len() && s[i] == c
}

/// The suffix strictly after the last occurrence of a byte; the whole
/// sequence when the byte does not occur.
pub open spec fn spec_suffix_after_last(s: Seq<u8>, c: u8) -> Seq<u8>
    decreases s.len(),
{
    if s.len() == 0 {
        s
    } else if s[s.len() - 1] == c {
        Seq::<u8>::empty()
    } else {
        spec_suffix_after_last(s.subrange(0, s.len() - 1), c).push(s[s.len() - 1])
    }
}

/// The prefix strictly before the last occurrence of a byte; the whole
/// sequence when the byte does not occur.
pub open spec fn spec_prefix_before_last(s: Seq<u8>, c: u8) -> Seq<u8>
    decreases s.len(),
{
    if s.len() == 0 {
        s
    } else if s[s.len() - 1] == c {
        s.subrange(0, s.len() - 1)
    } else if spec_has_byte(s.subrange(0, s.len() - 1), c) {
        spec_prefix_before_last(s.subrange(0, s.len() - 1), c)
    } else {
        s
    }
}

/// Locates the last occurrence of a byte, if any.
fn find_last(s: &[u8], c: u8) -> (r: Option<usize>)
    ensures
        match r {
            Some(i) => i < s@.len() && s@[i as int] == c && forall|j: int|
                i < j < s@.len() ==> s@[j] != c,
            None => forall|j: int| 0 <= j < s@.len() ==> s@[j] != c,
        },
{
    let mut i: usize = s.len();
    while i > 0
        invariant
            i <= s@.len(),
            forall|j: int| i <= j < s@.len() ==> s@[j] != c,
        decreases i,
    {
        i = i - 1;
        if s[i] == c {
            return Some(i);
        }
    }
    None
}

/// When the last occurrence of `c` stands at `i`, the suffix after the
/// last occurrence is the subrange after `i`.
proof fn lemma_suffix_after_last_at(s: Seq<u8>, c: u8, i: int)
    requires
        0 <= i < s.len(),
        s[i] == c,
        forall|j: int| i < j < s.len() ==> s[j] != c,
    ensures
        spec_suffix_after_last(s, c) == s.subrange(i + 1, s.len() as int),
    decreases s.len(),
{
    if i == s.len() - 1 {
        assert(spec_suffix_after_last(s, c) =~= s.subrange(i + 1, s.len() as int));
    } else {
        let s0 = s.subrange(0, s.len() - 1);
        lemma_suffix_after_last_at(s0, c, i);
        assert(s0.subrange(i + 1, s0.len() as int) =~= s.subrange(i + 1, s.len() - 1));
        assert(spec_suffix_after_last(s, c) =~= s.subrange(i + 1, s.len() as int));
    }
}

/// When `c` does not occur, the suffix after its last occurrence is the
/// whole sequence.
proof fn lemma_suffix_after_last_none(s: Seq<u8>, c: u8)
    requires
        forall|j: int| 0 <= j < s.len() ==> s[j] != c,
    ensures
        spec_suffix_after_last(s, c) == s,
    decreases s.len(),
{
    if s.len() > 0 {
        let s0 = s.subrange(0, s.len() - 1);
        lemma_suffix_after_last_none(s0, c);
        assert(spec_suffix_after_last(s, c) =~= s);
    } else {
        assert(spec_suffix_after_last(s, c) =~= s);
    }
}

/// When the last occurrence of `c` stands at `i`, the prefix before the
/// last occurrence is the subrange up to `i`.
proof fn lemma_prefix_before_last_at(s: Seq<u8>, c: u8, i: int)
    requires
        0 <= i < s.len(),
        s[i] == c,
        forall|j: int| i < j < s.len() ==> s[j] != c,
    ensures
        spec_prefix_before_last(s, c) == s.subrange(0, i),
    decreases s.len(),
{
    if i == s.len() - 1 {
    } else {
        let s0 = s.subrange(0, s.len() - 1);
        assert(s0[i] == c);
        assert(spec_has_byte(s0, c));
        lemma_prefix_before_last_at(s0, c, i);
        assert(s0.subrange(0, i) =~= s.subrange(0, i));
    }
}

/// When `c` does not occur, the prefix before its last occurrence is the
/// whole sequence.
proof fn lemma_prefix_before_last_none(s: Seq<u8>, c: u8)
    requires
        forall|j: int| 0 <= j < s.len() ==> s[j] != c,
    ensures
        spec_prefix_before_last(s, c) == s,
{
    if s.len() > 0 {
        assert(!spec_has_byte(s.subrange(0, s.len() - 1), c)) by {
            if spec_has_byte(s.subrange(0, s.len() - 1), c) {
                let s0 = s.subrange(0, s.len() - 1);
                let i = choose|i: int| 0 <= i < s0.len() && #[trigger] s0[i] == c;
                assert(s[i] == c);
            }
        }
    }
}

/// The suffix strictly after the last occurrence of a byte, as a fresh
/// vector; the whole input when the byte does not occur.
fn suffix_after_last(s: &[u8], c: u8) -> (r: Vec<u8>)
    ensures
        r@ == spec_suffix_after_last(s@, c),
{
    match find_last(s, c) {
        Some(i) => {
            proof {
                lemma_suffix_after_last_at(s@, c, i as int);
            }
            let n: usize = s.len();
            assert(i < n);
            crate::bytes::sub_bytes(s, i + 1, n)
        },
        None => {
            proof {
                lemma_suffix_after_last_none(s@, c);
            }
            let r = crate::bytes::sub_bytes(s, 0, s.len());
            proof {
                assert(r@ =~= s@);
            }
            r
        },
    }
}

/// The prefix strictly before the last occurrence of a byte, as a fresh
/// vector; the whole input when the byte does not occur.
fn prefix_before_last(s: &[u8], c: u8) -> (r: Vec<u8>)
    ensures
        r@ == spec_prefix_before_last(s@, c),
{
    match find_last(s, c) {
        Some(i) => {
            proof {
                lemma_prefix_before_last_at(s@, c, i as int);
            }
            crate::bytes::sub_bytes(s, 0, i)
        },
        None => {
            proof {
                lemma_prefix_before_last_none(s@, c);
            }
            let r = crate::bytes::sub_bytes(s, 0, s.len());
            proof {
                assert(r@ =~= s@);
            }
            r
        },
    }
}

/// The second entry mirrors the first: same variant, same payload.
pub open spec fn entry_matches(a: FsEntry, b: FsEntry) -> bool {
    match a {
        FsEntry::ExecFile => b matches FsEntry::ExecFile,
        FsEntry::WaitFile => b matches FsEntry::WaitFile,
        FsEntry::ResetFile => b matches FsEntry::ResetFile,
        FsEntry::AppendDataFile(p) => b matches FsEntry::AppendDataFile(q) && q@ == p@,
        FsEntry::ResultFile(d) => b matches FsEntry::ResultFile(x) && x@ == d@,
    }
}

/// A fresh entry of the same variant and payload.
fn clone_fs_entry(e: &FsEntry) -> (r: FsEntry)
    ensures
        entry_matches(*e, r),
{
    match e {
        FsEntry::ExecFile => FsEntry::ExecFile,
        FsEntry::WaitFile => FsEntry::WaitFile,
        FsEntry::ResetFile => FsEntry::ResetFile,
        FsEntry::AppendDataFile(p) => FsEntry::AppendDataFile(copy_bytes(p)),
        FsEntry::ResultFile(d) => FsEntry::ResultFile(copy_bytes(d)),
    }
}

/// What a successful lookup resolves to.
#[derive(Debug)]
pub enum LookupReply {
    /// The mount's root directory.
    RootDir,
    /// A realized file, reported with its current inode.
    File(RealizedFsEntry),
}

/// The attributes a realized entry reports.
pub open spec fn spec_attrs_match(e: RealizedFsEntry, a: FileAttrs) -> bool {
    &&& a.ino == e.inode
    &&& a.size == spec_entry_payload(e.entry).len()
    &&& a.kind == FileKind::RegularFile
    &&& a.perm == 0o444u16
    &&& a.nlink == 0
    &&& a.blksize == 512
}

/// A name that realizes a fresh append file when no reserved name takes
/// precedence: non-empty and lowercase hex throughout.
pub open spec fn spec_is_new_append(n: Seq<u8>) -> bool {
    &&& n.len() > 0
    &&& forall|i: int| 0 <= i < n.len() ==> spec_is_append_char(#[trigger] n[i])
}

/// The start of the requested byte window, clipped to the file.
pub open spec fn spec_clip_start(len: int, offset: int) -> int {
    if offset <= len {
        offset
    } else {
        len
    }
}

/// The end of the requested byte window, clipped to the file.
pub open spec fn spec_clip_end(len: int, offset: int, size: int) -> int {
    if offset + size <= len {
        offset + size
    } else {
        len
    }
}

/// One line of the log file: the current buffer as lossy UTF-8, then the
/// message.
pub open spec fn spec_log_line(buf: Seq<u8>, msg: Seq<u8>) -> Seq<u8> {
    "[buf=".spec_bytes() + vstd::utf8::encode_utf8(lossy_of(buf)) + "] ".spec_bytes() + msg
        + "\n".spec_bytes()
}

} // verus!

verus! {

broadcast use vstd::std_specs::hash::group_hash_axioms;

/// First inode handed to a realized entry; the root directory is inode 1.
pub const FILE_INODE_OFFSET: u64 = 256;

/// What a file of the mounted directory is.
#[derive(Debug)]
pub enum FsEntry {
    /// Control file: reading it sends the command buffer to the pool.
    ExecFile,
    /// Control file: reading it blocks until one result arrives.
    WaitFile,
    /// Control file: reading it cancels all work and clears all state.
    ResetFile,
    /// Transient file whose read appends its hex payload to the buffer.
    AppendDataFile(Vec<u8>),
    /// Regular data file whose reads serve its contents.
    ResultFile(Vec<u8>),
}

/// A filesystem entry together with the inode it was realized under.
#[derive(Debug)]
pub struct RealizedFsEntry {
    pub inode: u64,
    pub entry: FsEntry,
}

/// The kind a file reports in its attributes.
#[derive(Clone, Copy, Debug, PartialEq, Eq, Structural)]
pub enum FileKind {
    Directory,
    RegularFile,
}

/// The attributes of a file, as far as the facade decides them; the times,
/// reset to "now" on every query, are left to the mount layer.
#[derive(Clone, Copy, Debug)]
pub struct FileAttrs {
    pub ino: u64,
    pub size: u64,
    pub kind: FileKind,
    pub perm: u16,
    pub nlink: u32,
    pub blksize: u32,
}

/// One row of a directory listing.
pub struct DirEntry {
    pub ino: u64,
    pub kind: FileKind,
    pub name: Vec<u8>,
}

/// The one-byte success marker every control file serves.
pub open spec fn success_bytes() -> Seq<u8> {
    "!".spec_bytes()
}

/// The logical size of an entry: its contents for data files, the success
/// marker for every control file.
pub open spec fn spec_entry_payload(e: FsEntry) -> Seq<u8> {
    match e {
        FsEntry::ResultFile(d) => d@,
        _ => success_bytes(),
    }
}

/// True of the bytes allowed in an append payload: lowercase hex only.
pub open spec fn spec_is_append_char(c: u8) -> bool {
    (48 <= c && c <= 57) || (97 <= c && c <= 102)
}

/// An allowed payload byte: lowercase hex only, so decoding is defined
/// and uppercase names are rejected.
pub fn is_allowed_char(c: u8) -> (r: bool)
    ensures
        r == spec_is_append_char(c),
{
    (48 <= c && c <= 57) || (97 <= c && c <= 102)
}

/// An append file's payload holds only allowed bytes, so its decoding is
/// always defined.
pub open spec fn append_payload_wf(e: FsEntry) -> bool {
    e matches FsEntry::AppendDataFile(p) ==> forall|i: int|
        0 <= i < p@.len() ==> spec_is_append_char(#[trigger] p@[i])
}

impl RealizedFsEntry {
    /// Filesystem attributes of a file; the size is the logical payload
    /// length.
    pub fn get_attrs(&self) -> (r: FileAttrs)
        ensures
            r.ino == self.inode,
            r.size == spec_entry_payload(self.entry).len(),
            r.kind == FileKind::RegularFile,
            r.perm == 0o444u16,
            r.nlink == 0,
            r.blksize == 512,
    {
        let size: usize = match &self.entry {
            FsEntry::ResultFile(data) => data.len(),
            _ => str_bytes_vec("!").len(),
        };
        FileAttrs {
            ino: self.inode,
            size: size as u64,
            kind: FileKind::RegularFile,
            perm: 0o444,
            nlink: 0,
            blksize: 512,
        }
    }

    /// Replaces the contents of a data file.
    pub fn write_result(&mut self, data: Vec<u8>)
        requires
            old(self).entry matches FsEntry::ResultFile(_),
        ensures
            final(self).inode == old(self).inode,
            final(self).entry matches FsEntry::ResultFile(_),
            spec_entry_payload(final(self).entry) == data@,
    {
        match &mut self.entry {
            FsEntry::ResultFile(result) => {
                *result = data;
            },
            _ => {
                proof {
                    assert(false);
                }
            },
        }
    }

    /// Appends to the contents of a data file.
    pub fn append_result(&mut self, data: Vec<u8>)
        requires
            old(self).entry matches FsEntry::ResultFile(_),
        ensures
            final(self).inode == old(self).inode,
            final(self).entry matches FsEntry::ResultFile(_),
            spec_entry_payload(final(self).entry) == spec_entry_payload(old(self).entry) + data@,
    {
        match &mut self.entry {
            FsEntry::ResultFile(result) => {
                append_bytes(result, data.as_slice());
            },
            _ => {
                proof {
                    assert(false);
                }
            },
        }
    }
}

/// The facade: the decoded command buffer, the inode table, the named
/// pointers, and the two channel endpoints shared with the worker pool.
pub struct ShellEscapeFs {
    /// The command buffer, already decoded from hex.
    pub decoded_command_buffer: Vec<u8>,
    pub exec_file_inode: u64,
    pub wait_file_inode: u64,
    pub reset_file_inode: u64,
    pub diagnostics_file_inode: u64,
    pub stdout_file_inode: u64,
    pub stderr_file_inode: u64,
    pub log_file_inode: u64,
    /// Every file ever realized; entries are never removed.
    pub inodes: HashMap<u64, RealizedFsEntry>,
    /// Sends commands to the shell worker pool.
    pub command_channel: Sender<Command>,
    /// Receives finished results from the shell worker pool.
    pub results_channel: Receiver<FinishedCommand>,
}

impl ShellEscapeFs {
    /// The inode the next realized entry will receive.
    pub open spec fn next_inode(self) -> int {
        FILE_INODE_OFFSET + self.inodes@.len()
    }

    /// Shape of the inode table: the keys are exactly the allocated range,
    /// each entry records its own inode, and append payloads are valid.
    pub open spec fn map_wf(self) -> bool {
        &&& forall|k: u64|
            #[trigger] self.inodes@.contains_key(k) <==> (FILE_INODE_OFFSET <= k && k
                < self.next_inode())
        &&& forall|k: u64|
            self.inodes@.contains_key(k) ==> (#[trigger] self.inodes@[k]).inode == k
        &&& forall|k: u64|
            self.inodes@.contains_key(k) ==> append_payload_wf(#[trigger] self.inodes@[k].entry)
    }

    /// Every named pointer is bound to an entry of its own variant.
    pub open spec fn pointers_wf(self) -> bool {
        &&& self.inodes@.contains_key(self.exec_file_inode)
        &&& self.inodes@[self.exec_file_inode].entry matches FsEntry::ExecFile
        &&& self.inodes@.contains_key(self.wait_file_inode)
        &&& self.inodes@[self.wait_file_inode].entry matches FsEntry::WaitFile
        &&& self.inodes@.contains_key(self.reset_file_inode)
        &&& self.inodes@[self.reset_file_inode].entry matches FsEntry::ResetFile
        &&& self.inodes@.contains_key(self.diagnostics_file_inode)
        &&& self.inodes@[self.diagnostics_file_inode].entry matches FsEntry::ResultFile(_)
        &&& self.inodes@.contains_key(self.stdout_file_inode)
        &&& self.inodes@[self.stdout_file_inode].entry matches FsEntry::ResultFile(_)
        &&& self.inodes@.contains_key(self.stderr_file_inode)
        &&& self.inodes@[self.stderr_file_inode].entry matches FsEntry::ResultFile(_)
        &&& self.inodes@.contains_key(self.log_file_inode)
        &&& self.inodes@[self.log_file_inode].entry matches FsEntry::ResultFile(_)
    }

    /// The facade's invariant.
    pub open spec fn wf(self) -> bool {
        self.map_wf() && self.pointers_wf()
    }

    /// The channel endpoints are left as they were.
    pub open spec fn channels_unchanged(pre: Self, post: Self) -> bool {
        post.command_channel == pre.command_channel && post.results_channel
            == pre.results_channel
    }

    /// Every realized entry but the log keeps its attributes and contents.
    pub open spec fn entries_preserved_except_log(pre: Self, post: Self) -> bool {
        forall|k: u64|
            #[trigger] pre.inodes@.contains_key(k) && k != pre.log_file_inode
                ==> post.inodes@.contains_key(k) && post.inodes@[k] == pre.inodes@[k]
    }

    /// Builds the facade around the two channel endpoints, with an empty
    /// command buffer and the seven named files freshly realized.
    pub fn new(command_channel: Sender<Command>, results_channel: Receiver<FinishedCommand>) -> (r:
        Self)
        ensures
            r.wf(),
            r.decoded_command_buffer@ == Seq::<u8>::empty(),
            r.exec_file_inode == 256,
            r.wait_file_inode == 257,
            r.reset_file_inode == 258,
            r.diagnostics_file_inode == 259,
            r.stdout_file_inode == 260,
            r.stderr_file_inode == 261,
            r.log_file_inode == 262,
            r.inodes@.len() == 7,
            spec_entry_payload(r.inodes@[r.diagnostics_file_inode].entry) == Seq::<u8>::empty(),
            spec_entry_payload(r.inodes@[r.stdout_file_inode].entry) == Seq::<u8>::empty(),
            spec_entry_payload(r.inodes@[r.stderr_file_inode].entry) == Seq::<u8>::empty(),
            spec_entry_payload(r.inodes@[r.log_file_inode].entry) == Seq::<u8>::empty(),
            r.command_channel == command_channel,
            r.results_channel == results_channel,
    {
        let mut fs = ShellEscapeFs {
            decoded_command_buffer: Vec::new(),
            exec_file_inode: 0,
            wait_file_inode: 0,
            reset_file_inode: 0,
            diagnostics_file_inode: 0,
            stdout_file_inode: 0,
            stderr_file_inode: 0,
            log_file_inode: 0,
            inodes: HashMap::new(),
            command_channel,
            results_channel,
        };
        let exec_ino = fs.make_entry(FsEntry::ExecFile);
        fs.exec_file_inode = exec_ino;
        let wait_ino = fs.make_entry(FsEntry::WaitFile);
        fs.wait_file_inode = wait_ino;
        let reset_ino = fs.make_entry(FsEntry::ResetFile);
        fs.reset_file_inode = reset_ino;
        let diag_ino = fs.make_entry(FsEntry::ResultFile(Vec::new()));
        fs.diagnostics_file_inode = diag_ino;
        let stdout_ino = fs.make_entry(FsEntry::ResultFile(Vec::new()));
        fs.stdout_file_inode = stdout_ino;
        let stderr_ino = fs.make_entry(FsEntry::ResultFile(Vec::new()));
        fs.stderr_file_inode = stderr_ino;
        let log_ino = fs.make_entry(FsEntry::ResultFile(Vec::new()));
        fs.log_file_inode = log_ino;
        fs
    }

    /// Realizes a new entry under the next inode and stores it.
    pub fn make_entry(&mut self, entry: FsEntry) -> (ino: u64)
        requires
            old(self).map_wf(),
            append_payload_wf(entry),
            old(self).inodes@.len() + FILE_INODE_OFFSET < u64::MAX,
        ensures
            final(self).map_wf(),
            ino == old(self).next_inode(),
            !old(self).inodes@.contains_key(ino),
            final(self).inodes@ == old(self).inodes@.insert(
                ino,
                (RealizedFsEntry { inode: ino, entry }),
            ),
            final(self).inodes@.len() == old(self).inodes@.len() + 1,
            final(self).decoded_command_buffer == old(self).decoded_command_buffer,
            final(self).exec_file_inode == old(self).exec_file_inode,
            final(self).wait_file_inode == old(self).wait_file_inode,
            final(self).reset_file_inode == old(self).reset_file_inode,
            final(self).diagnostics_file_inode == old(self).diagnostics_file_inode,
            final(self).stdout_file_inode == old(self).stdout_file_inode,
            final(self).stderr_file_inode == old(self).stderr_file_inode,
            final(self).log_file_inode == old(self).log_file_inode,
            Self::channels_unchanged(*old(self), *final(self)),
    {
        let ino: u64 = (self.inodes.len() as u64) + FILE_INODE_OFFSET;
        let realized = RealizedFsEntry { inode: ino, entry };
        self.inodes.insert(ino, realized);
        ino
    }

    /// The entry realized under an inode, if any.
    pub fn get_entry(&self, inode: u64) -> (r: Option<&RealizedFsEntry>)
        ensures
            match r {
                Some(e) => self.inodes@.contains_key(inode) && *e == self.inodes@[inode],
                None => !self.inodes@.contains_key(inode),
            },
    {
        self.inodes.get(&inode)
    }

    /// The entry currently bound to the `exec` pointer.
    pub fn exec_file(&self) -> (r: &RealizedFsEntry)
        requires
            self.wf(),
        ensures
            *r == self.inodes@[self.exec_file_inode],
    {
        match self.inodes.get(&self.exec_file_inode) {
            Some(e) => e,
            None => vstd::pervasive::unreached(),
        }
    }

    /// The entry currently bound to the `wait` pointer.
    pub fn wait_file(&self) -> (r: &RealizedFsEntry)
        requires
            self.wf(),
        ensures
            *r == self.inodes@[self.wait_file_inode],
    {
        match self.inodes.get(&self.wait_file_inode) {
            Some(e) => e,
            None => vstd::pervasive::unreached(),
        }
    }

    /// The entry currently bound to the `reset` pointer.
    pub fn reset_file(&self) -> (r: &RealizedFsEntry)
        requires
            self.wf(),
        ensures
            *r == self.inodes@[self.reset_file_inode],
    {
        match self.inodes.get(&self.reset_file_inode) {
            Some(e) => e,
            None => vstd::pervasive::unreached(),
        }
    }

    /// The entry currently bound to the `diagnostics` pointer.
    pub fn diagnostics_file(&self) -> (r: &RealizedFsEntry)
        requires
            self.wf(),
        ensures
            *r == self.inodes@[self.diagnostics_file_inode],
    {
        match self.inodes.get(&self.diagnostics_file_inode) {
            Some(e) => e,
            None => vstd::pervasive::unreached(),
        }
    }

    /// The entry currently bound to the `stdout` pointer.
    pub fn stdout_file(&self) -> (r: &RealizedFsEntry)
        requires
            self.wf(),
        ensures
            *r == self.inodes@[self.stdout_file_inode],
    {
        match self.inodes.get(&self.stdout_file_inode) {
            Some(e) => e,
            None => vstd::pervasive::unreached(),
        }
    }

    /// The entry currently bound to the `stderr` pointer.
    pub fn stderr_file(&self) -> (r: &RealizedFsEntry)
        requires
            self.wf(),
        ensures
            *r == self.inodes@[self.stderr_file_inode],
    {
        match self.inodes.get(&self.stderr_file_inode) {
            Some(e) => e,
            None => vstd::pervasive::unreached(),
        }
    }

    /// The entry currently bound to the `log` pointer.
    pub fn log_file(&self) -> (r: &RealizedFsEntry)
        requires
            self.wf(),
        ensures
            *r == self.inodes@[self.log_file_inode],
    {
        match self.inodes.get(&self.log_file_inode) {
            Some(e) => e,
            None => vstd::pervasive::unreached(),
        }
    }

    /// Filesystem attributes of the root directory.
    pub fn root_attrs(&self) -> (r: FileAttrs)
        ensures
            r.ino == 1,
            r.size == 0,
            r.kind == FileKind::Directory,
            r.perm == 0o555u16,
            r.nlink == 0,
            r.blksize == 512,
    {
        FileAttrs {
            ino: 1,
            size: 0,
            kind: FileKind::Directory,
            perm: 0o555,
            nlink: 0,
            blksize: 512,
        }
    }

    /// One line was appended to the log file, showing the given buffer and
    /// message; the binding itself never moves.
    pub open spec fn log_grew(pre: Self, post: Self, buf: Seq<u8>, msg: Seq<u8>) -> bool {
        &&& post.log_file_inode == pre.log_file_inode
        &&& post.inodes@.contains_key(pre.log_file_inode)
        &&& post.inodes@[pre.log_file_inode].inode == pre.log_file_inode
        &&& post.inodes@[pre.log_file_inode].entry matches FsEntry::ResultFile(_)
        &&& spec_entry_payload(post.inodes@[pre.log_file_inode].entry) == spec_entry_payload(
            pre.inodes@[pre.log_file_inode].entry,
        ) + spec_log_line(buf, msg)
    }

    /// Writes a message to the log file. The buffer content is added to the
    /// message.
    fn log(&mut self, message: &str)
        requires
            old(self).wf(),
        ensures
            final(self).wf(),
            Self::log_grew(*old(self), *final(self), old(self).decoded_command_buffer@,
                message.spec_bytes()),
            Self::entries_preserved_except_log(*old(self), *final(self)),
            Self::channels_unchanged(*old(self), *final(self)),
            final(self).inodes@.dom() == old(self).inodes@.dom(),
            final(self).inodes@.len() == old(self).inodes@.len(),
            final(self).decoded_command_buffer == old(self).decoded_command_buffer,
            final(self).exec_file_inode == old(self).exec_file_inode,
            final(self).wait_file_inode == old(self).wait_file_inode,
            final(self).reset_file_inode == old(self).reset_file_inode,
            final(self).diagnostics_file_inode == old(self).diagnostics_file_inode,
            final(self).stdout_file_inode == old(self).stdout_file_inode,
            final(self).stderr_file_inode == old(self).stderr_file_inode,
            final(self).log_file_inode == old(self).log_file_inode,
    {
        let mut line: Vec<u8> = Vec::new();
        append_str_bytes(&mut line, "[buf=");
        let buffer_text = lossy_utf8(&self.decoded_command_buffer);
        append_str_bytes(&mut line, buffer_text.as_str());
        append_str_bytes(&mut line, "] ");
        append_str_bytes(&mut line, message);
        append_str_bytes(&mut line, "\n");
        proof {
            assert(line@ =~= spec_log_line(
                self.decoded_command_buffer@,
                message.spec_bytes(),
            ));
        }
        let log_ino = self.log_file_inode;
        let mut entry = match self.inodes.remove(&log_ino) {
            Some(e) => e,
            None => vstd::pervasive::unreached(),
        };
        entry.append_result(line);
        self.inodes.insert(log_ino, entry);
        proof {
            assert(self.inodes@ =~= old(self).inodes@.insert(
                log_ino,
                self.inodes@[log_ino],
            ));
            assert(self.inodes@.dom() =~= old(self).inodes@.dom());
        }
    }

    /// Replaces the contents of the data file realized under an inode.
    fn write_result_at(&mut self, ino: u64, data: Vec<u8>)
        requires
            old(self).map_wf(),
            old(self).inodes@.contains_key(ino),
            old(self).inodes@[ino].entry matches FsEntry::ResultFile(_),
        ensures
            final(self).map_wf(),
            final(self).inodes@.dom() == old(self).inodes@.dom(),
            final(self).inodes@.len() == old(self).inodes@.len(),
            final(self).inodes@ == old(self).inodes@.insert(ino, final(self).inodes@[ino]),
            final(self).inodes@[ino].inode == ino,
            final(self).inodes@[ino].entry matches FsEntry::ResultFile(_),
            spec_entry_payload(final(self).inodes@[ino].entry) == data@,
            Self::channels_unchanged(*old(self), *final(self)),
            final(self).decoded_command_buffer == old(self).decoded_command_buffer,
            final(self).exec_file_inode == old(self).exec_file_inode,
            final(self).wait_file_inode == old(self).wait_file_inode,
            final(self).reset_file_inode == old(self).reset_file_inode,
            final(self).diagnostics_file_inode == old(self).diagnostics_file_inode,
            final(self).stdout_file_inode == old(self).stdout_file_inode,
            final(self).stderr_file_inode == old(self).stderr_file_inode,
            final(self).log_file_inode == old(self).log_file_inode,
    {
        let mut entry = match self.inodes.remove(&ino) {
            Some(e) => e,
            None => vstd::pervasive::unreached(),
        };
        entry.write_result(data);
        self.inodes.insert(ino, entry);
        proof {
            assert(self.inodes@ =~= old(self).inodes@.insert(ino, self.inodes@[ino]));
            assert(self.inodes@.dom() =~= old(self).inodes@.dom());
        }
    }

    /// The observable outcome of appending one hex payload: the decoded
    /// bytes land at the end of the buffer and one log line is written.
    pub open spec fn do_append_post(pre: Self, post: Self, encoded: Seq<u8>) -> bool {
        &&& post.wf()
        &&& post.decoded_command_buffer@ == pre.decoded_command_buffer@ + spec_hex_decode(
            encoded,
        )
        &&& Self::log_grew(pre, post, post.decoded_command_buffer@, "Appended".spec_bytes())
        &&& Self::entries_preserved_except_log(pre, post)
        &&& Self::channels_unchanged(pre, post)
        &&& post.inodes@.dom() == pre.inodes@.dom()
        &&& post.exec_file_inode == pre.exec_file_inode
        &&& post.wait_file_inode == pre.wait_file_inode
        &&& post.reset_file_inode == pre.reset_file_inode
        &&& post.diagnostics_file_inode == pre.diagnostics_file_inode
        &&& post.stdout_file_inode == pre.stdout_file_inode
        &&& post.stderr_file_inode == pre.stderr_file_inode
        &&& post.log_file_inode == pre.log_file_inode
    }

    /// Appends the given bytes (hex-encoded) to the command buffer and logs
    /// it.
    pub fn do_append(&mut self, encoded_bytes: Vec<u8>)
        requires
            old(self).wf(),
            forall|i: int|
                0 <= i < encoded_bytes@.len() ==> spec_is_append_char(
                    #[trigger] encoded_bytes@[i],
                ),
        ensures
            Self::do_append_post(*old(self), *final(self), encoded_bytes@),
    {
        let decoded = hex_decode(encoded_bytes);
        append_bytes(&mut self.decoded_command_buffer, decoded.as_slice());
        self.log("Appended");
    }

    /// The observable outcome of an exec trigger: an empty buffer only
    /// logs; a full one is cleared and sent, and the `exec` file is
    /// rebound to a fresh inode.
    pub open spec fn do_exec_post(pre: Self, post: Self, r: Result<(), FsError>) -> bool {
        &&& post.wf()
        &&& Self::entries_preserved_except_log(pre, post)
        &&& Self::channels_unchanged(pre, post)
        &&& post.wait_file_inode == pre.wait_file_inode
        &&& post.reset_file_inode == pre.reset_file_inode
        &&& post.diagnostics_file_inode == pre.diagnostics_file_inode
        &&& post.stdout_file_inode == pre.stdout_file_inode
        &&& post.stderr_file_inode == pre.stderr_file_inode
        &&& post.log_file_inode == pre.log_file_inode
        &&& pre.decoded_command_buffer@.len() == 0 ==> {
            &&& r matches Ok(())
            &&& post.decoded_command_buffer == pre.decoded_command_buffer
            &&& post.exec_file_inode == pre.exec_file_inode
            &&& post.inodes@.dom() == pre.inodes@.dom()
            &&& Self::log_grew(pre, post, pre.decoded_command_buffer@,
                "Ignoring execution because buffer is empty".spec_bytes())
        }
        &&& pre.decoded_command_buffer@.len() > 0 ==> {
            &&& post.decoded_command_buffer@.len() == 0
            &&& Self::log_grew(pre, post, pre.decoded_command_buffer@,
                "Executing".spec_bytes())
            &&& (r matches Ok(()) ==> {
                &&& post.exec_file_inode == pre.next_inode()
                &&& post.inodes@.contains_key(post.exec_file_inode)
                &&& post.inodes@[post.exec_file_inode].entry matches FsEntry::ExecFile
                &&& post.inodes@.len() == pre.inodes@.len() + 1
            })
            &&& (r matches Err(e) ==> {
                &&& e == FsError::ChannelClosed
                &&& post.exec_file_inode == pre.exec_file_inode
                &&& post.inodes@.dom() == pre.inodes@.dom()
            })
        }
    }

    /// Takes the contents of the command buffer and sends it to the shell;
    /// the buffer is cleared and the `exec` file is rebound. An empty
    /// buffer sends nothing and only logs.
    pub fn do_exec(&mut self) -> (r: Result<(), FsError>)
        requires
            old(self).wf(),
            old(self).inodes@.len() + FILE_INODE_OFFSET + 1 < u64::MAX,
        ensures
            Self::do_exec_post(*old(self), *final(self), r),
    {
        if self.decoded_command_buffer.len() == 0 {
            self.log("Ignoring execution because buffer is empty");
            return Ok(());
        }
        self.log("Executing");
        let command = copy_bytes(&self.decoded_command_buffer);
        self.decoded_command_buffer = Vec::new();
        if !send_command(&self.command_channel, Command::Execute(command)) {
            return Err(FsError::ChannelClosed);
        }
        let ino = self.make_entry(FsEntry::ExecFile);
        self.exec_file_inode = ino;
        Ok(())
    }

    /// The state change that storing one received execution makes: fresh
    /// `diagnostics`, `stdout` and `stderr` files, filled from the result.
    pub open spec fn execution_stored(pre: Self, post: Self, fe: FinishedExecution) -> bool {
        &&& post.diagnostics_file_inode == pre.next_inode()
        &&& post.stdout_file_inode == pre.next_inode() + 1
        &&& post.stderr_file_inode == pre.next_inode() + 2
        &&& post.inodes@.contains_key(post.diagnostics_file_inode)
        &&& post.inodes@.contains_key(post.stdout_file_inode)
        &&& post.inodes@.contains_key(post.stderr_file_inode)
        &&& spec_entry_payload(post.inodes@[post.diagnostics_file_inode].entry)
            == spec_diagnostics_json(fe)
        &&& spec_entry_payload(post.inodes@[post.stdout_file_inode].entry) == (match fe.result {
            ExecutionResult::Ran { stdout, .. } => stdout@,
            _ => Seq::<u8>::empty(),
        })
        &&& spec_entry_payload(post.inodes@[post.stderr_file_inode].entry) == (match fe.result {
            ExecutionResult::Ran { stderr, .. } => stderr@,
            _ => Seq::<u8>::empty(),
        })
        &&& post.inodes@.len() == pre.inodes@.len() + 3
        &&& forall|k: u64|
            #[trigger] pre.inodes@.contains_key(k) ==> post.inodes@.contains_key(k)
                && post.inodes@[k] == pre.inodes@[k]
        &&& post.decoded_command_buffer == pre.decoded_command_buffer
        &&& post.exec_file_inode == pre.exec_file_inode
        &&& post.wait_file_inode == pre.wait_file_inode
        &&& post.reset_file_inode == pre.reset_file_inode
        &&& post.log_file_inode == pre.log_file_inode
    }

    /// Rebinds fresh result files and fills them from one finished
    /// execution: the diagnostics document always, the captured output
    /// streams when the child actually ran. Everything stated holds for
    /// every possible received value.
    pub fn store_execution(&mut self, finished: FinishedExecution)
        requires
            old(self).wf(),
            old(self).inodes@.len() + FILE_INODE_OFFSET + 3 < u64::MAX,
        ensures
            final(self).wf(),
            Self::execution_stored(*old(self), *final(self), finished),
            Self::channels_unchanged(*old(self), *final(self)),
    {
        let diag_ino = self.make_entry(FsEntry::ResultFile(Vec::new()));
        self.diagnostics_file_inode = diag_ino;
        let stdout_ino = self.make_entry(FsEntry::ResultFile(Vec::new()));
        self.stdout_file_inode = stdout_ino;
        let stderr_ino = self.make_entry(FsEntry::ResultFile(Vec::new()));
        self.stderr_file_inode = stderr_ino;
        let json = finished.summarize_into_json();
        self.write_result_at(diag_ino, json);
        match finished.result {
            ExecutionResult::Ran { stdout, stderr, .. } => {
                self.write_result_at(stdout_ino, stdout);
                self.write_result_at(stderr_ino, stderr);
            },
            _ => {},
        }
    }

    /// The successful outcome of a wait: the `wait` file rebound, two log
    /// lines, and the received execution stored in fresh result files.
    pub open spec fn wait_one_ok(pre: Self, post: Self, fe: FinishedExecution) -> bool {
        &&& post.wait_file_inode == pre.next_inode()
        &&& post.inodes@.contains_key(post.wait_file_inode)
        &&& post.inodes@[post.wait_file_inode].entry matches FsEntry::WaitFile
        &&& post.diagnostics_file_inode == pre.next_inode() + 1
        &&& post.stdout_file_inode == pre.next_inode() + 2
        &&& post.stderr_file_inode == pre.next_inode() + 3
        &&& post.inodes@.contains_key(post.diagnostics_file_inode)
        &&& post.inodes@.contains_key(post.stdout_file_inode)
        &&& post.inodes@.contains_key(post.stderr_file_inode)
        &&& spec_entry_payload(post.inodes@[post.diagnostics_file_inode].entry)
            == spec_diagnostics_json(fe)
        &&& spec_entry_payload(post.inodes@[post.stdout_file_inode].entry) == (match fe.result {
            ExecutionResult::Ran { stdout, .. } => stdout@,
            _ => Seq::<u8>::empty(),
        })
        &&& spec_entry_payload(post.inodes@[post.stderr_file_inode].entry) == (match fe.result {
            ExecutionResult::Ran { stderr, .. } => stderr@,
            _ => Seq::<u8>::empty(),
        })
        &&& spec_entry_payload(post.inodes@[pre.log_file_inode].entry) == spec_entry_payload(
            pre.inodes@[pre.log_file_inode].entry,
        ) + spec_log_line(pre.decoded_command_buffer@, "Waiting".spec_bytes()) + spec_log_line(
            pre.decoded_command_buffer@,
            "Received result".spec_bytes(),
        )
        &&& post.inodes@.len() == pre.inodes@.len() + 4
    }

    /// The observable outcome of a wait trigger: frame conditions that
    /// hold however the received result turns out, and, on success, the
    /// stored result of some execution.
    pub open spec fn wait_one_post(pre: Self, post: Self, r: Result<(), FsError>) -> bool {
        &&& post.wf()
        &&& Self::entries_preserved_except_log(pre, post)
        &&& Self::channels_unchanged(pre, post)
        &&& post.decoded_command_buffer == pre.decoded_command_buffer
        &&& post.exec_file_inode == pre.exec_file_inode
        &&& post.reset_file_inode == pre.reset_file_inode
        &&& post.log_file_inode == pre.log_file_inode
        &&& r matches Ok(()) ==> exists|fe: FinishedExecution| Self::wait_one_ok(pre, post, fe)
        &&& r matches Err(e) ==> {
            &&& post.wait_file_inode == pre.next_inode()
            &&& e == FsError::ChannelClosed ==> {
                &&& spec_entry_payload(post.inodes@[pre.log_file_inode].entry)
                    == spec_entry_payload(pre.inodes@[pre.log_file_inode].entry)
                    + spec_log_line(pre.decoded_command_buffer@, "Waiting".spec_bytes())
                &&& post.diagnostics_file_inode == pre.diagnostics_file_inode
                &&& post.stdout_file_inode == pre.stdout_file_inode
                &&& post.stderr_file_inode == pre.stderr_file_inode
                &&& post.inodes@.len() == pre.inodes@.len() + 1
            }
            &&& e == FsError::UnexpectedTermination ==> {
                &&& spec_entry_payload(post.inodes@[pre.log_file_inode].entry)
                    == spec_entry_payload(pre.inodes@[pre.log_file_inode].entry)
                    + spec_log_line(pre.decoded_command_buffer@, "Waiting".spec_bytes())
                    + spec_log_line(pre.decoded_command_buffer@, "Received result".spec_bytes())
                &&& post.diagnostics_file_inode == pre.next_inode() + 1
                &&& post.stdout_file_inode == pre.next_inode() + 2
                &&& post.stderr_file_inode == pre.next_inode() + 3
                &&& spec_entry_payload(post.inodes@[post.diagnostics_file_inode].entry)
                    == Seq::<u8>::empty()
                &&& spec_entry_payload(post.inodes@[post.stdout_file_inode].entry)
                    == Seq::<u8>::empty()
                &&& spec_entry_payload(post.inodes@[post.stderr_file_inode].entry)
                    == Seq::<u8>::empty()
                &&& post.inodes@.len() == pre.inodes@.len() + 4
            }
            &&& (e == FsError::ChannelClosed || e == FsError::UnexpectedTermination)
        }
    }

    /// Waits for the shell to finish executing one command and publishes
    /// its result. Blocks the whole facade; a `Termination` received here
    /// is a protocol violation and is reported as an error.
    pub fn wait_one(&mut self) -> (r: Result<(), FsError>)
        requires
            old(self).wf(),
            old(self).inodes@.len() + FILE_INODE_OFFSET + 4 < u64::MAX,
        ensures
            Self::wait_one_post(*old(self), *final(self), r),
    {
        self.log("Waiting");
        let ghost s1 = *self;
        let wait_ino = self.make_entry(FsEntry::WaitFile);
        self.wait_file_inode = wait_ino;
        let ghost s2 = *self;
        proof {
            assert forall|k: u64|
                #[trigger] old(self).inodes@.contains_key(k) && k != old(self).log_file_inode
                implies self.inodes@.contains_key(k) && self.inodes@[k]
                    == old(self).inodes@[k] by {
                assert(s1.inodes@.contains_key(k) && s1.inodes@[k] == old(self).inodes@[k]);
            }
        }
        let received = match recv_result(&self.results_channel) {
            Some(result) => result,
            None => {
                return Err(FsError::ChannelClosed);
            },
        };
        self.log("Received result");
        let ghost s3 = *self;
        proof {
            assert forall|k: u64|
                #[trigger] old(self).inodes@.contains_key(k) && k != old(self).log_file_inode
                implies self.inodes@.contains_key(k) && self.inodes@[k]
                    == old(self).inodes@[k] by {
                assert(s1.inodes@.contains_key(k) && s1.inodes@[k] == old(self).inodes@[k]);
                assert(s2.inodes@.contains_key(k) && s2.inodes@[k] == s1.inodes@[k]);
            }
        }
        match received {
            FinishedCommand::Termination => {
                let diag_ino = self.make_entry(FsEntry::ResultFile(Vec::new()));
                self.diagnostics_file_inode = diag_ino;
                let stdout_ino = self.make_entry(FsEntry::ResultFile(Vec::new()));
                self.stdout_file_inode = stdout_ino;
                let stderr_ino = self.make_entry(FsEntry::ResultFile(Vec::new()));
                self.stderr_file_inode = stderr_ino;
                proof {
                    assert forall|k: u64|
                        #[trigger] old(self).inodes@.contains_key(k) && k != old(
                            self,
                        ).log_file_inode implies self.inodes@.contains_key(k)
                        && self.inodes@[k] == old(self).inodes@[k] by {
                        assert(s3.inodes@.contains_key(k) && s3.inodes@[k]
                            == old(self).inodes@[k]);
                    }
                }
                Err(FsError::UnexpectedTermination)
            },
            FinishedCommand::Execution(finished) => {
                let ghost received_execution = finished;
                self.store_execution(finished);
                proof {
                    assert forall|k: u64|
                        #[trigger] old(self).inodes@.contains_key(k) && k != old(
                            self,
                        ).log_file_inode implies self.inodes@.contains_key(k)
                        && self.inodes@[k] == old(self).inodes@[k] by {
                        assert(s3.inodes@.contains_key(k) && s3.inodes@[k]
                            == old(self).inodes@[k]);
                    }
                    assert(Self::wait_one_ok(*old(self), *self, received_execution));
                }
                Ok(())
            },
        }
    }

    /// The observable outcome of a reset trigger: on success the buffer is
    /// cleared, every control and result file but the log is rebound to a
    /// fresh inode, and the result channel was drained past one
    /// `Termination`.
    pub open spec fn terminate_all_post(pre: Self, post: Self, r: Result<(), FsError>) -> bool {
        &&& post.wf()
        &&& Self::entries_preserved_except_log(pre, post)
        &&& Self::channels_unchanged(pre, post)
        &&& post.log_file_inode == pre.log_file_inode
        &&& r matches Err(e) ==> e == FsError::ChannelClosed && (post == pre
            || Self::terminate_all_reset(pre, post))
        &&& r matches Ok(()) ==> Self::terminate_all_reset(pre, post)
    }

    /// The state a reset leaves behind: an empty buffer, one log line, and
    /// six freshly rebound control and result files.
    pub open spec fn terminate_all_reset(pre: Self, post: Self) -> bool {
        &&& post.decoded_command_buffer@.len() == 0
        &&& Self::log_grew(pre, post, pre.decoded_command_buffer@, "Terminating".spec_bytes())
        &&& post.exec_file_inode == pre.next_inode()
        &&& post.wait_file_inode == pre.next_inode() + 1
        &&& post.reset_file_inode == pre.next_inode() + 2
        &&& post.diagnostics_file_inode == pre.next_inode() + 3
        &&& post.stdout_file_inode == pre.next_inode() + 4
        &&& post.stderr_file_inode == pre.next_inode() + 5
        &&& post.inodes@.len() == pre.inodes@.len() + 6
        &&& spec_entry_payload(post.inodes@[post.diagnostics_file_inode].entry)
            == Seq::<u8>::empty()
        &&& spec_entry_payload(post.inodes@[post.stdout_file_inode].entry) == Seq::<u8>::empty()
        &&& spec_entry_payload(post.inodes@[post.stderr_file_inode].entry) == Seq::<u8>::empty()
    }

    /// Terminates all running commands, clears the command buffer, rebinds
    /// every control and result file, and drains the result channel past
    /// the pool's single `Termination` marker.
    pub fn terminate_all(&mut self) -> (r: Result<(), FsError>)
        requires
            old(self).wf(),
            old(self).inodes@.len() + FILE_INODE_OFFSET + 6 < u64::MAX,
        ensures
            Self::terminate_all_post(*old(self), *final(self), r),
    {
        if !send_command(&self.command_channel, Command::TerminateAll) {
            return Err(FsError::ChannelClosed);
        }
        self.log("Terminating");
        let exec_ino = self.make_entry(FsEntry::ExecFile);
        self.exec_file_inode = exec_ino;
        let wait_ino = self.make_entry(FsEntry::WaitFile);
        self.wait_file_inode = wait_ino;
        let reset_ino = self.make_entry(FsEntry::ResetFile);
        self.reset_file_inode = reset_ino;
        let diag_ino = self.make_entry(FsEntry::ResultFile(Vec::new()));
        self.diagnostics_file_inode = diag_ino;
        let stdout_ino = self.make_entry(FsEntry::ResultFile(Vec::new()));
        self.stdout_file_inode = stdout_ino;
        let stderr_ino = self.make_entry(FsEntry::ResultFile(Vec::new()));
        self.stderr_file_inode = stderr_ino;
        self.decoded_command_buffer = Vec::new();
        if !drain_until_termination(&self.results_channel) {
            return Err(FsError::ChannelClosed);
        }
        Ok(())
    }

    /// What a lookup resolves a raw name to, after stripping any nonce
    /// prefix and extension: a reserved name reports the current binding
    /// of its pointer, a fresh hex name realizes an append file, and
    /// anything else is unknown.
    pub open spec fn lookup_post(
        pre: Self,
        post: Self,
        name: Seq<u8>,
        r: Result<LookupReply, FsError>,
    ) -> bool {
        let n1 = spec_suffix_after_last(name, 95);
        let n2 = spec_prefix_before_last(n1, 46);
        &&& post.wf()
        &&& Self::channels_unchanged(pre, post)
        &&& post.decoded_command_buffer == pre.decoded_command_buffer
        &&& post.exec_file_inode == pre.exec_file_inode
        &&& post.wait_file_inode == pre.wait_file_inode
        &&& post.reset_file_inode == pre.reset_file_inode
        &&& post.diagnostics_file_inode == pre.diagnostics_file_inode
        &&& post.stdout_file_inode == pre.stdout_file_inode
        &&& post.stderr_file_inode == pre.stderr_file_inode
        &&& post.log_file_inode == pre.log_file_inode
        &&& forall|k: u64|
            #[trigger] pre.inodes@.contains_key(k) ==> post.inodes@.contains_key(k)
                && post.inodes@[k] == pre.inodes@[k]
        &&& if n1 == ".".spec_bytes() {
            post == pre && r matches Ok(LookupReply::RootDir)
        } else if n2 == "exec".spec_bytes() {
            post == pre && (r matches Ok(LookupReply::File(e)) && e.inode
                == pre.exec_file_inode && entry_matches(
                pre.inodes@[pre.exec_file_inode].entry,
                e.entry,
            ))
        } else if n2 == "wait".spec_bytes() {
            post == pre && (r matches Ok(LookupReply::File(e)) && e.inode
                == pre.wait_file_inode && entry_matches(
                pre.inodes@[pre.wait_file_inode].entry,
                e.entry,
            ))
        } else if n2 == "reset".spec_bytes() {
            post == pre && (r matches Ok(LookupReply::File(e)) && e.inode
                == pre.reset_file_inode && entry_matches(
                pre.inodes@[pre.reset_file_inode].entry,
                e.entry,
            ))
        } else if n2 == "diagnostics".spec_bytes() {
            post == pre && (r matches Ok(LookupReply::File(e)) && e.inode
                == pre.diagnostics_file_inode && entry_matches(
                pre.inodes@[pre.diagnostics_file_inode].entry,
                e.entry,
            ))
        } else if n2 == "stdout".spec_bytes() {
            post == pre && (r matches Ok(LookupReply::File(e)) && e.inode
                == pre.stdout_file_inode && entry_matches(
                pre.inodes@[pre.stdout_file_inode].entry,
                e.entry,
            ))
        } else if n2 == "stderr".spec_bytes() {
            post == pre && (r matches Ok(LookupReply::File(e)) && e.inode
                == pre.stderr_file_inode && entry_matches(
                pre.inodes@[pre.stderr_file_inode].entry,
                e.entry,
            ))
        } else if n2 == "log".spec_bytes() {
            post == pre && (r matches Ok(LookupReply::File(e)) && e.inode
                == pre.log_file_inode && entry_matches(
                pre.inodes@[pre.log_file_inode].entry,
                e.entry,
            ))
        } else if spec_is_new_append(n2) {
            &&& r matches Ok(LookupReply::File(e)) && e.inode == pre.next_inode() && (e.entry
                matches FsEntry::AppendDataFile(p) && p@ == n2)
            &&& post.inodes@.contains_key((pre.next_inode()) as u64)
            &&& post.inodes@[(pre.next_inode()) as u64].entry matches FsEntry::AppendDataFile(q)
                && q@ == n2
            &&& post.inodes@.len() == pre.inodes@.len() + 1
        } else {
            post == pre && (r matches Err(err) && err == FsError::NoSuchEntry)
        }
    }

    /// Resolves one path component under the root directory. The name is
    /// normalized first: everything up to the last `_` is dropped, a bare
    /// `.` names the root itself, and a trailing `.extension` is dropped.
    pub fn lookup(&mut self, parent: u64, name: &[u8]) -> (r: Result<LookupReply, FsError>)
        requires
            old(self).wf(),
            parent == 1,
            old(self).inodes@.len() + FILE_INODE_OFFSET < u64::MAX,
        ensures
            Self::lookup_post(*old(self), *final(self), name@, r),
    {
        let n1 = suffix_after_last(name, 95);
        if bytes_eq(n1.as_slice(), ".".as_bytes()) {
            return Ok(LookupReply::RootDir);
        }
        let n2 = prefix_before_last(n1.as_slice(), 46);
        if bytes_eq(n2.as_slice(), "exec".as_bytes()) {
            let entry = clone_fs_entry(&self.exec_file().entry);
            return Ok(LookupReply::File(RealizedFsEntry { inode: self.exec_file_inode, entry }));
        }
        if bytes_eq(n2.as_slice(), "wait".as_bytes()) {
            let entry = clone_fs_entry(&self.wait_file().entry);
            return Ok(LookupReply::File(RealizedFsEntry { inode: self.wait_file_inode, entry }));
        }
        if bytes_eq(n2.as_slice(), "reset".as_bytes()) {
            let entry = clone_fs_entry(&self.reset_file().entry);
            return Ok(LookupReply::File(RealizedFsEntry { inode: self.reset_file_inode, entry }));
        }
        if bytes_eq(n2.as_slice(), "diagnostics".as_bytes()) {
            let entry = clone_fs_entry(&self.diagnostics_file().entry);
            return Ok(
                LookupReply::File(RealizedFsEntry { inode: self.diagnostics_file_inode, entry }),
            );
        }
        if bytes_eq(n2.as_slice(), "stdout".as_bytes()) {
            let entry = clone_fs_entry(&self.stdout_file().entry);
            return Ok(LookupReply::File(RealizedFsEntry { inode: self.stdout_file_inode, entry }));
        }
        if bytes_eq(n2.as_slice(), "stderr".as_bytes()) {
            let entry = clone_fs_entry(&self.stderr_file().entry);
            return Ok(LookupReply::File(RealizedFsEntry { inode: self.stderr_file_inode, entry }));
        }
        if bytes_eq(n2.as_slice(), "log".as_bytes()) {
            let entry = clone_fs_entry(&self.log_file().entry);
            return Ok(LookupReply::File(RealizedFsEntry { inode: self.log_file_inode, entry }));
        }
        let mut all_allowed = n2.len() > 0;
        let mut i: usize = 0;
        while i < n2.len()
            invariant
                i <= n2@.len(),
                all_allowed == (n2@.len() > 0 && forall|j: int|
                    0 <= j < i ==> spec_is_append_char(#[trigger] n2@[j])),
            decreases n2@.len() - i,
        {
            let ok = is_allowed_char(n2[i]);
            all_allowed = all_allowed && ok;
            i = i + 1;
        }
        if all_allowed {
            let payload = copy_bytes(&n2);
            let ino = self.make_entry(FsEntry::AppendDataFile(payload));
            return Ok(
                LookupReply::File(RealizedFsEntry { inode: ino, entry: FsEntry::AppendDataFile(n2) }),
            );
        }
        Err(FsError::NoSuchEntry)
    }

    /// The attributes of the file or directory realized under an inode:
    /// the root for inode 1, the stored entry otherwise.
    pub fn getattr(&self, ino: u64) -> (r: Option<FileAttrs>)
        ensures
            ino == 1 ==> (r matches Some(a) && a.ino == 1 && a.size == 0 && a.kind
                == FileKind::Directory && a.perm == 0o555u16),
            ino != 1 && self.inodes@.contains_key(ino) ==> (r matches Some(a)
                && spec_attrs_match(self.inodes@[ino], a)),
            ino != 1 && !self.inodes@.contains_key(ino) ==> r matches None::<FileAttrs>,
    {
        if ino == 1 {
            Some(self.root_attrs())
        } else {
            match self.get_entry(ino) {
                Some(entry) => Some(entry.get_attrs()),
                None => None,
            }
        }
    }

    /// The result of one read call: the clipped byte window of the file's
    /// payload, and, when that window is non-empty, exactly one side
    /// effect fired according to the entry's variant.
    pub open spec fn read_post(
        pre: Self,
        post: Self,
        ino: u64,
        offset: int,
        size: int,
        r: Result<Vec<u8>, FsError>,
    ) -> bool {
        &&& post.wf()
        &&& Self::channels_unchanged(pre, post)
        &&& Self::entries_preserved_except_log(pre, post)
        &&& post.log_file_inode == pre.log_file_inode
        &&& !pre.inodes@.contains_key(ino) ==> post == pre && (r matches Err(e) && e
            == FsError::NoSuchEntry)
        &&& pre.inodes@.contains_key(ino) ==> {
            let entry = pre.inodes@[ino].entry;
            let payload = spec_entry_payload(entry);
            let start = spec_clip_start(payload.len() as int, offset);
            let end = spec_clip_end(payload.len() as int, offset, size);
            &&& (r matches Ok(data) ==> data@ == payload.subrange(start, end))
            &&& start == end ==> (post == pre && r matches Ok(_))
            &&& start < end ==> match entry {
                FsEntry::ExecFile => {
                    &&& (r matches Ok(_) ==> Self::do_exec_post(pre, post, Ok(())))
                    &&& (r matches Err(e) ==> Self::do_exec_post(pre, post, Err(e)))
                },
                FsEntry::WaitFile => {
                    &&& (r matches Ok(_) ==> Self::wait_one_post(pre, post, Ok(())))
                    &&& (r matches Err(e) ==> Self::wait_one_post(pre, post, Err(e)))
                },
                FsEntry::ResetFile => {
                    &&& (r matches Ok(_) ==> Self::terminate_all_post(pre, post, Ok(())))
                    &&& (r matches Err(e) ==> Self::terminate_all_post(pre, post, Err(e)))
                },
                FsEntry::AppendDataFile(p) => r matches Ok(_) && Self::do_append_post(
                    pre,
                    post,
                    p@,
                ),
                FsEntry::ResultFile(_) => post == pre && r matches Ok(_),
            }
        }
    }

    /// Serves one read: the requested window of the file, clipped to its
    /// logical size; a non-empty window on a control or append file fires
    /// that file's side effect exactly once.
    pub fn read_file(&mut self, ino: u64, offset: usize, size: usize) -> (r: Result<
        Vec<u8>,
        FsError,
    >)
        requires
            old(self).wf(),
            old(self).inodes@.len() + FILE_INODE_OFFSET + 6 < u64::MAX,
        ensures
            Self::read_post(*old(self), *final(self), ino, offset as int, size as int, r),
    {
        let entry = match self.get_entry(ino) {
            Some(e) => clone_fs_entry(&e.entry),
            None => {
                return Err(FsError::NoSuchEntry);
            },
        };
        let payload: Vec<u8> = match &entry {
            FsEntry::ResultFile(d) => copy_bytes(d),
            _ => str_bytes_vec("!"),
        };
        let len = payload.len();
        let start = if offset <= len {
            offset
        } else {
            len
        };
        let remain = len - start;
        let take = if size <= remain {
            size
        } else {
            remain
        };
        let end = start + take;
        let data = crate::bytes::sub_bytes(payload.as_slice(), start, end);
        if start < end {
            match entry {
                FsEntry::ExecFile => {
                    match self.do_exec() {
                        Ok(()) => {},
                        Err(e) => {
                            return Err(e);
                        },
                    }
                },
                FsEntry::WaitFile => {
                    match self.wait_one() {
                        Ok(()) => {},
                        Err(e) => {
                            return Err(e);
                        },
                    }
                },
                FsEntry::ResetFile => {
                    match self.terminate_all() {
                        Ok(()) => {},
                        Err(e) => {
                            return Err(e);
                        },
                    }
                },
                FsEntry::AppendDataFile(p) => {
                    proof {
                        assert(append_payload_wf(old(self).inodes@[ino].entry));
                    }
                    self.do_append(p);
                },
                FsEntry::ResultFile(_) => {},
            }
        }
        Ok(data)
    }

    /// The fixed directory listing: dot entries first, then the seven
    /// named files, each under its current inode.
    pub open spec fn spec_dir_listing(self) -> Seq<(u64, FileKind, Seq<u8>)> {
        seq![
            (1u64, FileKind::Directory, ".".spec_bytes()),
            (1u64, FileKind::Directory, "..".spec_bytes()),
            (self.exec_file_inode, FileKind::RegularFile, "exec".spec_bytes()),
            (self.wait_file_inode, FileKind::RegularFile, "wait".spec_bytes()),
            (self.reset_file_inode, FileKind::RegularFile, "reset".spec_bytes()),
            (self.diagnostics_file_inode, FileKind::RegularFile, "diagnostics".spec_bytes()),
            (self.stdout_file_inode, FileKind::RegularFile, "stdout".spec_bytes()),
            (self.stderr_file_inode, FileKind::RegularFile, "stderr".spec_bytes()),
            (self.log_file_inode, FileKind::RegularFile, "log".spec_bytes()),
        ]
    }

    /// Enumerates the root directory from the given offset; transient
    /// append files never appear here.
    pub fn readdir(&self, ino: u64, fh: u64, offset: usize) -> (r: Vec<DirEntry>)
        requires
            ino == 1,
            fh == 0,
        ensures
            r@.len() == if offset <= 9 { 9 - offset as int } else { 0int },
            forall|i: int| 0 <= i < r@.len() ==> {
                let e = #[trigger] r@[i];
                &&& e.ino == self.spec_dir_listing()[offset + i].0
                &&& e.kind == self.spec_dir_listing()[offset + i].1
                &&& e.name@ == self.spec_dir_listing()[offset + i].2
            },
    {
        let mut out: Vec<DirEntry> = Vec::new();
        if offset <= 0 {
            out.push(DirEntry { ino: 1, kind: FileKind::Directory, name: str_bytes_vec(".") });
        }
        if offset <= 1 {
            out.push(DirEntry { ino: 1, kind: FileKind::Directory, name: str_bytes_vec("..") });
        }
        if offset <= 2 {
            out.push(
                DirEntry {
                    ino: self.exec_file_inode,
                    kind: FileKind::RegularFile,
                    name: str_bytes_vec("exec"),
                },
            );
        }
        if offset <= 3 {
            out.push(
                DirEntry {
                    ino: self.wait_file_inode,
                    kind: FileKind::RegularFile,
                    name: str_bytes_vec("wait"),
                },
            );
        }
        if offset <= 4 {
            out.push(
                DirEntry {
                    ino: self.reset_file_inode,
                    kind: FileKind::RegularFile,
                    name: str_bytes_vec("reset"),
                },
            );
        }
        if offset <= 5 {
            out.push(
                DirEntry {
                    ino: self.diagnostics_file_inode,
                    kind: FileKind::RegularFile,
                    name: str_bytes_vec("diagnostics"),
                },
            );
        }
        if offset <= 6 {
            out.push(
                DirEntry {
                    ino: self.stdout_file_inode,
                    kind: FileKind::RegularFile,
                    name: str_bytes_vec("stdout"),
                },
            );
        }
        if offset <= 7 {
            out.push(
                DirEntry {
                    ino: self.stderr_file_inode,
                    kind: FileKind::RegularFile,
                    name: str_bytes_vec("stderr"),
                },
            );
        }
        if offset <= 8 {
            out.push(
                DirEntry {
                    ino: self.log_file_inode,
                    kind: FileKind::RegularFile,
                    name: str_bytes_vec("log"),
                },
            );
        }
        out
    }

    /// An inode handed out by `lookup` or `readdir` keeps resolving to
    /// the same attributes until a side effect rebinds its pointer:
    /// attributes are a function of the stored entry alone, and every
    /// facade operation leaves previously realized entries unchanged, the
    /// append-only log file aside.
    pub proof fn lemma_attrs_stable(pre: Self, post: Self, ino: u64, a1: FileAttrs, a2: FileAttrs)
        requires
            Self::entries_preserved_except_log(pre, post),
            pre.inodes@.contains_key(ino),
            ino != pre.log_file_inode,
            spec_attrs_match(pre.inodes@[ino], a1),
            spec_attrs_match(post.inodes@[ino], a2),
        ensures
            a1 == a2,
    {
    }
}

} // verus!
