//! The process capability: the command builder, the owned-strings-plus-table
//! array handed to a foreign spawn call, exit-status decoding, and the process
//! handle.  Building and decoding are real, fully specified logic; spawning is
//! not supported, and the process handle cannot be constructed.

use vstd::prelude::*;
use vstd::string::StringExecFns;
use crate::error::{unsupported, unsupported_err, IoError};
use crate::fd::FileDesc;
use crate::handle::NoHandle;
use crate::numfmt::{dec_int, hex_digits, i32_to_decimal, u32_to_hex};
use crate::pipe::AnonPipe;

verus! {

/// Signal numbers of the target platform (Linux).
pub const SIGHUP: i32 = 1;
pub const SIGINT: i32 = 2;
pub const SIGQUIT: i32 = 3;
pub const SIGILL: i32 = 4;
pub const SIGTRAP: i32 = 5;
pub const SIGABRT: i32 = 6;
pub const SIGBUS: i32 = 7;
pub const SIGFPE: i32 = 8;
pub const SIGKILL: i32 = 9;
pub const SIGUSR1: i32 = 10;
pub const SIGSEGV: i32 = 11;
pub const SIGUSR2: i32 = 12;
pub const SIGPIPE: i32 = 13;
pub const SIGALRM: i32 = 14;
pub const SIGTERM: i32 = 15;
pub const SIGSTKFLT: i32 = 16;
pub const SIGCHLD: i32 = 17;
pub const SIGCONT: i32 = 18;
pub const SIGSTOP: i32 = 19;
pub const SIGTSTP: i32 = 20;
pub const SIGTTIN: i32 = 21;
pub const SIGTTOU: i32 = 22;
pub const SIGURG: i32 = 23;
pub const SIGXCPU: i32 = 24;
pub const SIGXFSZ: i32 = 25;
pub const SIGVTALRM: i32 = 26;
pub const SIGPROF: i32 = 27;
pub const SIGWINCH: i32 = 28;
pub const SIGIO: i32 = 29;
pub const SIGPWR: i32 = 30;
pub const SIGSYS: i32 = 31;

/// The searchable name of a recognized signal, rendered to follow the number;
/// empty for an unrecognized one.
pub open spec fn signal_name_spec(signal: i32) -> Seq<char> {
    if signal == SIGHUP {
        " (SIGHUP)"@
    } else if signal == SIGINT {
        " (SIGINT)"@
    } else if signal == SIGQUIT {
        " (SIGQUIT)"@
    } else if signal == SIGILL {
        " (SIGILL)"@
    } else if signal == SIGTRAP {
        " (SIGTRAP)"@
    } else if signal == SIGABRT {
        " (SIGABRT)"@
    } else if signal == SIGBUS {
        " (SIGBUS)"@
    } else if signal == SIGFPE {
        " (SIGFPE)"@
    } else if signal == SIGKILL {
        " (SIGKILL)"@
    } else if signal == SIGUSR1 {
        " (SIGUSR1)"@
    } else if signal == SIGSEGV {
        " (SIGSEGV)"@
    } else if signal == SIGUSR2 {
        " (SIGUSR2)"@
    } else if signal == SIGPIPE {
        " (SIGPIPE)"@
    } else if signal == SIGALRM {
        " (SIGALRM)"@
    } else if signal == SIGTERM {
        " (SIGTERM)"@
    } else if signal == SIGSTKFLT {
        " (SIGSTKFLT)"@
    } else if signal == SIGCHLD {
        " (SIGCHLD)"@
    } else if signal == SIGCONT {
        " (SIGCONT)"@
    } else if signal == SIGSTOP {
        " (SIGSTOP)"@
    } else if signal == SIGTSTP {
        " (SIGTSTP)"@
    } else if signal == SIGTTIN {
        " (SIGTTIN)"@
    } else if signal == SIGTTOU {
        " (SIGTTOU)"@
    } else if signal == SIGURG {
        " (SIGURG)"@
    } else if signal == SIGXCPU {
        " (SIGXCPU)"@
    } else if signal == SIGXFSZ {
        " (SIGXFSZ)"@
    } else if signal == SIGVTALRM {
        " (SIGVTALRM)"@
    } else if signal == SIGPROF {
        " (SIGPROF)"@
    } else if signal == SIGWINCH {
        " (SIGWINCH)"@
    } else if signal == SIGIO {
        " (SIGIO)"@
    } else if signal == SIGPWR {
        " (SIGPWR)"@
    } else if signal == SIGSYS {
        " (SIGSYS)"@
    } else {
        Seq::empty()
    }
}

/// Converts a signal number to a readable, searchable name, to be displayed
/// right after the number itself: `9` becomes `" (SIGKILL)"`.  Unrecognized
/// numbers get the empty string, so the caller renders just the number.
pub fn signal_string(signal: i32) -> (s: &'static str)
    ensures
        s@ == signal_name_spec(signal),
{
    proof {
        reveal_strlit("");
        assert(""@ =~= Seq::<char>::empty());
    }
    if signal == SIGHUP {
        " (SIGHUP)"
    } else if signal == SIGINT {
        " (SIGINT)"
    } else if signal == SIGQUIT {
        " (SIGQUIT)"
    } else if signal == SIGILL {
        " (SIGILL)"
    } else if signal == SIGTRAP {
        " (SIGTRAP)"
    } else if signal == SIGABRT {
        " (SIGABRT)"
    } else if signal == SIGBUS {
        " (SIGBUS)"
    } else if signal == SIGFPE {
        " (SIGFPE)"
    } else if signal == SIGKILL {
        " (SIGKILL)"
    } else if signal == SIGUSR1 {
        " (SIGUSR1)"
    } else if signal == SIGSEGV {
        " (SIGSEGV)"
    } else if signal == SIGUSR2 {
        " (SIGUSR2)"
    } else if signal == SIGPIPE {
        " (SIGPIPE)"
    } else if signal == SIGALRM {
        " (SIGALRM)"
    } else if signal == SIGTERM {
        " (SIGTERM)"
    } else if signal == SIGSTKFLT {
        " (SIGSTKFLT)"
    } else if signal == SIGCHLD {
        " (SIGCHLD)"
    } else if signal == SIGCONT {
        " (SIGCONT)"
    } else if signal == SIGSTOP {
        " (SIGSTOP)"
    } else if signal == SIGTSTP {
        " (SIGTSTP)"
    } else if signal == SIGTTIN {
        " (SIGTTIN)"
    } else if signal == SIGTTOU {
        " (SIGTTOU)"
    } else if signal == SIGURG {
        " (SIGURG)"
    } else if signal == SIGXCPU {
        " (SIGXCPU)"
    } else if signal == SIGXFSZ {
        " (SIGXFSZ)"
    } else if signal == SIGVTALRM {
        " (SIGVTALRM)"
    } else if signal == SIGPROF {
        " (SIGPROF)"
    } else if signal == SIGWINCH {
        " (SIGWINCH)"
    } else if signal == SIGIO {
        " (SIGIO)"
    } else if signal == SIGPWR {
        " (SIGPWR)"
    } else if signal == SIGSYS {
        " (SIGSYS)"
    } else {
        ""
    }
}

/// An owned NUL-terminated byte string with no interior NUL byte.
#[derive(Clone, Debug)]
pub struct CString {
    bytes: Vec<u8>,
}

impl CString {
    /// One terminating NUL, and nothing NUL before it.
    pub closed spec fn wf(self) -> bool {
        self.bytes@.len() >= 1 && self.bytes@.last() == 0u8 && (forall|i: int|
            0 <= i < self.bytes@.len() - 1 ==> self.bytes@[i] != 0u8)
    }

    /// The bytes, terminating NUL included.
    pub closed spec fn bytes_spec(self) -> Seq<u8> {
        self.bytes@
    }

    /// Builds a NUL-terminated string, rejecting input with an embedded NUL.
    pub fn new(bytes: &[u8]) -> (r: Option<CString>)
        ensures
            r is Some <==> !bytes@.contains(0u8),
            r matches Some(c) ==> c.wf() && c.bytes_spec() == bytes@ + seq![0u8],
    {
        if contains_nul(bytes) {
            None
        } else {
            let mut owned = vstd::slice::slice_to_vec(bytes);
            owned.push(0u8);
            let c = CString { bytes: owned };
            proof {
                assert(c.bytes_spec() =~= bytes@ + seq![0u8]);
                assert forall|i: int| 0 <= i < c.bytes_spec().len() - 1 implies c.bytes_spec()[i]
                    != 0u8 by {
                    assert(c.bytes_spec()[i] == bytes@[i]);
                    assert(!bytes@.contains(0u8));
                }
            }
            Some(c)
        }
    }

    pub fn as_bytes_with_nul(&self) -> (out: &[u8])
        ensures
            out@ == self.bytes_spec(),
    {
        self.bytes.as_slice()
    }
}

/// Whether the slice holds a NUL byte.
pub fn contains_nul(bytes: &[u8]) -> (r: bool)
    ensures
        r <==> bytes@.contains(0u8),
{
    let mut i: usize = 0;
    while i < bytes.len()
        invariant
            0 <= i <= bytes@.len(),
            forall|j: int| 0 <= j < i ==> bytes@[j] != 0u8,
        decreases bytes@.len() - i,
    {
        if *vstd::slice::slice_index_get(bytes, i) == 0u8 {
            proof {
                assert(bytes@.contains(0u8));
            }
            return true;
        }
        i = i + 1;
    }
    proof {
        assert(!bytes@.contains(0u8)) by {
            if bytes@.contains(0u8) {
                let j = choose|j: int| 0 <= j < bytes@.len() && bytes@[j] == 0u8;
            }
        }
    }
    false
}

/// One slot of the pointer table handed to a foreign call: the address of one
/// owned string, or the terminating null pointer.
#[derive(Clone, Copy, Debug, PartialEq, Eq, Structural)]
pub enum PtrSlot {
    Item(usize),
    Null,
}

/// Owned NUL-terminated strings plus the parallel pointer table for a foreign
/// call.  The two stay in lock-step: slot `i` addresses string `i`, and a
/// trailing null sentinel is always present and always last.
#[derive(Debug)]
pub struct CStringArray {
    items: Vec<CString>,
    ptrs: Vec<PtrSlot>,
}

impl CStringArray {
    pub closed spec fn items_spec(self) -> Seq<CString> {
        self.items@
    }

    pub closed spec fn ptrs_spec(self) -> Seq<PtrSlot> {
        self.ptrs@
    }

    /// The lock-step invariant: one table slot per string, in order, and the
    /// null sentinel last.
    pub open spec fn wf(self) -> bool {
        &&& self.ptrs_spec().len() == self.items_spec().len() + 1
        &&& (forall|i: int|
            0 <= i < self.items_spec().len() ==> self.ptrs_spec()[i] == PtrSlot::Item(i as usize))
        &&& self.ptrs_spec().last() == PtrSlot::Null
    }

    pub fn with_capacity(capacity: usize) -> (a: CStringArray)
        requires
            capacity < usize::MAX,
        ensures
            a.wf(),
            a.items_spec().len() == 0,
            a.ptrs_spec() == seq![PtrSlot::Null],
    {
        let mut result = CStringArray {
            items: Vec::with_capacity(capacity),
            ptrs: Vec::with_capacity(capacity + 1),
        };
        result.ptrs.push(PtrSlot::Null);
        proof {
            assert(result.ptrs_spec() =~= seq![PtrSlot::Null]);
        }
        result
    }

    /// Appends one owned string: its address replaces the sentinel slot and a
    /// fresh sentinel follows, keeping the table in lock-step.
    pub fn push(&mut self, item: CString)
        requires
            old(self).wf(),
            old(self).items_spec().len() + 1 < usize::MAX,
        ensures
            final(self).wf(),
            final(self).items_spec() == old(self).items_spec().push(item),
            final(self).ptrs_spec() == old(self).ptrs_spec().update(
                old(self).items_spec().len() as int,
                PtrSlot::Item(old(self).items_spec().len() as usize),
            ).push(PtrSlot::Null),
    {
        let l = self.ptrs.len();
        let idx = self.items.len();
        self.ptrs[l - 1] = PtrSlot::Item(idx);
        self.ptrs.push(PtrSlot::Null);
        self.items.push(item);
    }

    pub fn len(&self) -> (n: usize)
        ensures
            n == self.items_spec().len(),
    {
        self.items.len()
    }

    /// The table slot at `i`.
    pub fn ptr_slot(&self, i: usize) -> (slot: PtrSlot)
        requires
            i < self.ptrs_spec().len(),
        ensures
            slot == self.ptrs_spec()[i as int],
    {
        *vstd::slice::slice_index_get(self.ptrs.as_slice(), i)
    }

    /// How many slots the table holds: every string plus the sentinel.
    pub fn table_len(&self) -> (n: usize)
        ensures
            n == self.ptrs_spec().len(),
    {
        self.ptrs.len()
    }

    pub fn get_item(&self, i: usize) -> (item: &CString)
        requires
            i < self.items_spec().len(),
        ensures
            *item == self.items_spec()[i as int],
    {
        vstd::slice::slice_index_get(self.items.as_slice(), i)
    }
}

/// A configured redirection for one standard stream of a child.
#[derive(Debug)]
pub enum Stdio {
    Inherit,
    Null,
    MakePipe,
    Fd(FileDesc),
}

/// What a child's standard stream is connected to once spawning resolved it.
#[derive(Debug)]
pub enum ChildStdio {
    Inherit,
    Explicit(i32),
    Owned(FileDesc),
}

impl ChildStdio {
    /// The raw descriptor this stream resolves to, where one exists.  An
    /// `Owned` descriptor cannot exist on this platform, so that arm reports
    /// the conventional invalid descriptor.
    pub fn fd(&self) -> (r: Option<i32>)
        ensures
            r == (match *self {
                ChildStdio::Inherit => None::<i32>,
                ChildStdio::Explicit(fd) => Some(fd),
                ChildStdio::Owned(_) => Some(-1i32),
            }),
    {
        match self {
            ChildStdio::Inherit => None,
            ChildStdio::Explicit(fd) => Some(*fd),
            ChildStdio::Owned(_) => Some(-1),
        }
    }
}

/// The pipe ends handed back to the parent, one per requested stream.
#[derive(Debug)]
pub struct StdioPipes {
    pub stdin: Option<AnonPipe>,
    pub stdout: Option<AnonPipe>,
    pub stderr: Option<AnonPipe>,
}

/// The stream configuration handed to the child side of a spawn.
#[derive(Debug)]
pub struct ChildPipes {
    pub stdin: ChildStdio,
    pub stdout: ChildStdio,
    pub stderr: ChildStdio,
}

/// A mutable builder accumulating everything a spawn would need: program,
/// arguments, working directory, ids, and stdio plans.  Consumed by `spawn`
/// or `exec`, both of which fail on this platform.
pub struct Command {
    program: Vec<u8>,
    args: Vec<Vec<u8>>,
    cwd: Option<Vec<u8>>,
    uid: Option<u32>,
    gid: Option<u32>,
    groups: Option<Vec<u32>>,
    pgroup: Option<i32>,
    stdin: Option<Stdio>,
    stdout: Option<Stdio>,
    stderr: Option<Stdio>,
    create_pidfd: bool,
    saw_nul: bool,
}

impl Command {
    pub closed spec fn program_spec(self) -> Seq<u8> {
        self.program@
    }

    pub closed spec fn args_spec(self) -> Seq<Vec<u8>> {
        self.args@
    }

    pub closed spec fn cwd_spec(self) -> Option<Vec<u8>> {
        self.cwd
    }

    pub closed spec fn uid_spec(self) -> Option<u32> {
        self.uid
    }

    pub closed spec fn gid_spec(self) -> Option<u32> {
        self.gid
    }

    pub closed spec fn groups_spec(self) -> Option<Vec<u32>> {
        self.groups
    }

    pub closed spec fn pgroup_spec(self) -> Option<i32> {
        self.pgroup
    }

    pub closed spec fn stdin_spec(self) -> Option<Stdio> {
        self.stdin
    }

    pub closed spec fn stdout_spec(self) -> Option<Stdio> {
        self.stdout
    }

    pub closed spec fn stderr_spec(self) -> Option<Stdio> {
        self.stderr
    }

    /// Whether any configured string carried an embedded NUL byte; consulted
    /// before a spawn may proceed.
    pub closed spec fn saw_nul_spec(self) -> bool {
        self.saw_nul
    }

    pub fn new(program: &[u8]) -> (c: Command)
        ensures
            c.program_spec() == program@,
            c.args_spec().len() == 0,
            c.cwd_spec() is None,
            c.uid_spec() is None,
            c.gid_spec() is None,
            c.groups_spec() is None,
            c.pgroup_spec() is None,
            c.saw_nul_spec() == program@.contains(0u8),
    {
        let saw_nul = contains_nul(program);
        Command {
            program: vstd::slice::slice_to_vec(program),
            args: Vec::new(),
            cwd: None,
            uid: None,
            gid: None,
            groups: None,
            pgroup: None,
            stdin: None,
            stdout: None,
            stderr: None,
            create_pidfd: false,
            saw_nul,
        }
    }

    pub fn arg(&mut self, arg: &[u8])
        ensures
            final(self).args_spec().len() == old(self).args_spec().len() + 1,
            final(self).args_spec().last()@ == arg@,
            final(self).args_spec().drop_last() == old(self).args_spec(),
            final(self).saw_nul_spec() == (old(self).saw_nul_spec() || arg@.contains(0u8)),
            final(self).program_spec() == old(self).program_spec(),
            final(self).cwd_spec() == old(self).cwd_spec(),
    {
        if contains_nul(arg) {
            self.saw_nul = true;
        }
        self.args.push(vstd::slice::slice_to_vec(arg));
        proof {
            assert(final(self).args_spec().drop_last() =~= old(self).args_spec());
        }
    }

    pub fn cwd(&mut self, dir: &[u8])
        ensures
            final(self).cwd_spec() matches Some(d) && d@ == dir@,
            final(self).saw_nul_spec() == (old(self).saw_nul_spec() || dir@.contains(0u8)),
            final(self).program_spec() == old(self).program_spec(),
            final(self).args_spec() == old(self).args_spec(),
    {
        if contains_nul(dir) {
            self.saw_nul = true;
        }
        self.cwd = Some(vstd::slice::slice_to_vec(dir));
    }

    pub fn get_program(&self) -> (p: &Vec<u8>)
        ensures
            p@ == self.program_spec(),
    {
        &self.program
    }

    pub fn get_current_dir(&self) -> (d: &Option<Vec<u8>>)
        ensures
            *d == self.cwd_spec(),
    {
        &self.cwd
    }

    pub fn get_args(&self) -> (a: CommandArgs<'_>)
        ensures
            a.args_spec() == self.args_spec(),
            a.idx_spec() == 0,
    {
        CommandArgs { args: &self.args, idx: 0 }
    }

    pub fn uid(&mut self, id: u32)
        ensures
            final(self).uid_spec() == Some(id),
            final(self).gid_spec() == old(self).gid_spec(),
            final(self).saw_nul_spec() == old(self).saw_nul_spec(),
    {
        self.uid = Some(id);
    }

    pub fn gid(&mut self, id: u32)
        ensures
            final(self).gid_spec() == Some(id),
            final(self).uid_spec() == old(self).uid_spec(),
            final(self).saw_nul_spec() == old(self).saw_nul_spec(),
    {
        self.gid = Some(id);
    }

    pub fn groups(&mut self, groups: &[u32])
        ensures
            final(self).groups_spec() matches Some(g) && g@ == groups@,
            final(self).saw_nul_spec() == old(self).saw_nul_spec(),
    {
        self.groups = Some(vstd::slice::slice_to_vec(groups));
    }

    pub fn pgroup(&mut self, pgroup: i32)
        ensures
            final(self).pgroup_spec() == Some(pgroup),
            final(self).saw_nul_spec() == old(self).saw_nul_spec(),
    {
        self.pgroup = Some(pgroup);
    }

    /// Requesting a pidfd is ignored on this platform.
    pub fn create_pidfd(&mut self, _val: bool)
        ensures
            *final(self) == *old(self),
    {
    }

    pub fn get_create_pidfd(&self) -> (r: bool)
        ensures
            r == false,
    {
        false
    }

    pub fn saw_nul(&self) -> (r: bool)
        ensures
            r == self.saw_nul_spec(),
    {
        self.saw_nul
    }

    pub fn get_uid(&self) -> (r: Option<u32>)
        ensures
            r == self.uid_spec(),
    {
        self.uid
    }

    pub fn get_gid(&self) -> (r: Option<u32>)
        ensures
            r == self.gid_spec(),
    {
        self.gid
    }

    pub fn get_groups(&self) -> (r: &Option<Vec<u32>>)
        ensures
            *r == self.groups_spec(),
    {
        &self.groups
    }

    pub fn get_pgroup(&self) -> (r: Option<i32>)
        ensures
            r == self.pgroup_spec(),
    {
        self.pgroup
    }

    pub fn stdin(&mut self, stdin: Stdio)
        ensures
            final(self).stdin_spec() == Some(stdin),
            final(self).stdout_spec() == old(self).stdout_spec(),
            final(self).stderr_spec() == old(self).stderr_spec(),
            final(self).saw_nul_spec() == old(self).saw_nul_spec(),
    {
        self.stdin = Some(stdin);
    }

    pub fn stdout(&mut self, stdout: Stdio)
        ensures
            final(self).stdout_spec() == Some(stdout),
            final(self).stdin_spec() == old(self).stdin_spec(),
            final(self).stderr_spec() == old(self).stderr_spec(),
            final(self).saw_nul_spec() == old(self).saw_nul_spec(),
    {
        self.stdout = Some(stdout);
    }

    pub fn stderr(&mut self, stderr: Stdio)
        ensures
            final(self).stderr_spec() == Some(stderr),
            final(self).stdin_spec() == old(self).stdin_spec(),
            final(self).stdout_spec() == old(self).stdout_spec(),
            final(self).saw_nul_spec() == old(self).saw_nul_spec(),
    {
        self.stderr = Some(stderr);
    }

    /// There is no process environment to capture on this platform.
    pub fn capture_env(&mut self) -> (r: Option<CStringArray>)
        ensures
            r is None,
    {
        None
    }

    pub fn env_saw_path(&self) -> (r: bool)
        ensures
            r == false,
    {
        false
    }

    pub fn program_is_path(&self) -> (r: bool)
        ensures
            r == false,
    {
        false
    }

    /// Replacing the current process is not supported; the error is returned
    /// directly because a successful exec would never return.
    pub fn exec(&mut self, _default: Stdio) -> (e: IoError)
        ensures
            e.is_unsupported(),
    {
        unsupported_err()
    }

    /// Spawning is not supported for any configuration.
    pub fn spawn(&mut self, _default: Stdio, _needs_stdin: bool) -> (r: Result<
        (Process, StdioPipes),
        IoError,
    >)
        ensures
            r is Err && r->Err_0.is_unsupported(),
    {
        unsupported()
    }

    pub fn setup_io(&self, _default: Stdio, _needs_stdin: bool) -> (r: Result<
        (StdioPipes, ChildPipes),
        IoError,
    >)
        ensures
            r is Err && r->Err_0.is_unsupported(),
    {
        unsupported()
    }
}

/// A borrowed walk over a command's accumulated arguments.
pub struct CommandArgs<'a> {
    args: &'a Vec<Vec<u8>>,
    idx: usize,
}

impl<'a> CommandArgs<'a> {
    pub closed spec fn args_spec(self) -> Seq<Vec<u8>> {
        self.args@
    }

    pub closed spec fn idx_spec(self) -> nat {
        self.idx as nat
    }

    /// The next argument, in order of accumulation.
    pub fn next_arg(&mut self) -> (r: Option<&'a Vec<u8>>)
        requires
            old(self).idx_spec() <= old(self).args_spec().len(),
        ensures
            final(self).args_spec() == old(self).args_spec(),
            old(self).idx_spec() < old(self).args_spec().len() ==> (r matches Some(a) && *a == old(
                self,
            ).args_spec()[old(self).idx_spec() as int] && final(self).idx_spec() == old(
                self,
            ).idx_spec() + 1),
            old(self).idx_spec() >= old(self).args_spec().len() ==> r is None && *final(self)
                == *old(self),
    {
        if self.idx < self.args.len() {
            let out = vstd::slice::slice_index_get(self.args.as_slice(), self.idx);
            self.idx = self.idx + 1;
            Some(out)
        } else {
            None
        }
    }

    pub fn remaining(&self) -> (n: usize)
        requires
            self.idx_spec() <= self.args_spec().len(),
        ensures
            n == self.args_spec().len() - self.idx_spec(),
    {
        self.args.len() - self.idx
    }
}

/// The wait status of a terminated or state-changed child process, decoded by
/// the platform's rules into four mutually exclusive outcomes.
#[derive(Clone, Copy, Debug, PartialEq, Eq, Structural, Hash)]
pub struct ExitStatus {
    pub status: i32,
}

impl ExitStatus {
    /// Normal termination: the low seven bits are clear.
    pub open spec fn exited_spec(self) -> bool {
        self.status & 0x7f == 0
    }

    /// The numeric exit code of a normal termination.
    pub open spec fn code_spec(self) -> Option<i32> {
        if self.exited_spec() {
            Some((self.status >> 8) & 0xff)
        } else {
            None
        }
    }

    /// Termination by a signal: the low seven bits name one.
    pub open spec fn signaled_spec(self) -> bool {
        1 <= (self.status & 0x7f) <= 0x7e
    }

    /// The terminating signal, where there is one.
    pub open spec fn signal_spec(self) -> Option<i32> {
        if self.signaled_spec() {
            Some(self.status & 0x7f)
        } else {
            None
        }
    }

    /// Whether the terminating signal also produced a core dump.
    pub open spec fn core_dumped_spec(self) -> bool {
        self.signaled_spec() && (self.status & 0x80) != 0
    }

    /// Stopped by a signal (job control): the low byte is the stop marker.
    pub open spec fn stopped_spec(self) -> bool {
        self.status & 0xff == 0x7f
    }

    /// The stopping signal, where there is one.
    pub open spec fn stopped_signal_spec(self) -> Option<i32> {
        if self.stopped_spec() {
            Some((self.status >> 8) & 0xff)
        } else {
            None
        }
    }

    /// Resumed by the continue signal.
    pub open spec fn continued_spec(self) -> bool {
        self.status == 0xffff
    }

    /// Success is a normal exit with code zero.
    pub open spec fn success_spec(self) -> bool {
        self.code_spec() == Some(0i32)
    }

    pub fn new(status: i32) -> (es: ExitStatus)
        ensures
            es.status == status,
    {
        ExitStatus { status }
    }

    pub fn exited(&self) -> (r: bool)
        ensures
            r == self.exited_spec(),
    {
        self.status & 0x7f == 0
    }

    pub fn success(&self) -> (r: bool)
        ensures
            r == self.success_spec(),
    {
        match self.code() {
            Some(code) => code == 0,
            None => false,
        }
    }

    pub fn code(&self) -> (r: Option<i32>)
        ensures
            r == self.code_spec(),
    {
        if self.exited() {
            Some((self.status >> 8) & 0xff)
        } else {
            None
        }
    }

    pub fn exit_ok(&self) -> (r: Result<(), ExitStatusError>)
        ensures
            self.success_spec() ==> r is Ok,
            !self.success_spec() ==> (r matches Err(e) && e.status == *self && e.wf()),
    {
        if self.success() {
            Ok(())
        } else {
            Err(ExitStatusError { status: *self })
        }
    }

    pub fn signal(&self) -> (r: Option<i32>)
        ensures
            r == self.signal_spec(),
    {
        let t = self.status & 0x7f;
        if 1 <= t && t <= 0x7e {
            Some(t)
        } else {
            None
        }
    }

    pub fn core_dumped(&self) -> (r: bool)
        ensures
            r == self.core_dumped_spec(),
    {
        let t = self.status & 0x7f;
        1 <= t && t <= 0x7e && (self.status & 0x80) != 0
    }

    pub fn stopped_signal(&self) -> (r: Option<i32>)
        ensures
            r == self.stopped_signal_spec(),
    {
        if self.status & 0xff == 0x7f {
            Some((self.status >> 8) & 0xff)
        } else {
            None
        }
    }

    pub fn continued(&self) -> (r: bool)
        ensures
            r == self.continued_spec(),
    {
        self.status == 0xffff
    }

    pub fn into_raw(&self) -> (r: i32)
        ensures
            r == self.status,
    {
        self.status
    }

    /// The human-readable rendering of this status.
    pub open spec fn display_spec(self) -> Seq<char> {
        if self.exited_spec() {
            "exit status: "@ + dec_int(self.code_spec()->0 as int)
        } else if self.signaled_spec() {
            let sig = self.signal_spec()->0;
            if self.core_dumped_spec() {
                "signal: "@ + dec_int(sig as int) + signal_name_spec(sig) + " (core dumped)"@
            } else {
                "signal: "@ + dec_int(sig as int) + signal_name_spec(sig)
            }
        } else if self.stopped_spec() {
            let sig = self.stopped_signal_spec()->0;
            "stopped (not terminated) by signal: "@ + dec_int(sig as int) + signal_name_spec(sig)
        } else if self.continued_spec() {
            "continued (WIFCONTINUED)"@
        } else {
            "unrecognised wait status: "@ + dec_int(self.status as int) + " "@ + "0x"@
                + hex_digits((self.status as u32) as nat)
        }
    }

    /// Renders the status for a human: the numeric code or signal, the
    /// searchable signal name, and the core-dump marker where one applies.
    pub fn to_display_string(&self) -> (s: String)
        ensures
            s@ == self.display_spec(),
    {
        if let Some(code) = self.code() {
            let mut s = String::from_str("exit status: ");
            s.append(i32_to_decimal(code).as_str());
            s
        } else if let Some(sig) = self.signal() {
            let mut s = String::from_str("signal: ");
            s.append(i32_to_decimal(sig).as_str());
            s.append(signal_string(sig));
            if self.core_dumped() {
                s.append(" (core dumped)");
            }
            s
        } else if let Some(sig) = self.stopped_signal() {
            let mut s = String::from_str("stopped (not terminated) by signal: ");
            s.append(i32_to_decimal(sig).as_str());
            s.append(signal_string(sig));
            s
        } else if self.continued() {
            String::from_str("continued (WIFCONTINUED)")
        } else {
            let mut s = String::from_str("unrecognised wait status: ");
            s.append(i32_to_decimal(self.status).as_str());
            s.append(" ");
            s.append(u32_to_hex(self.status as u32).as_str());
            s
        }
    }
}

/// The four decoded outcomes of a wait status exclude one another.
pub proof fn lemma_wait_status_outcomes_disjoint(es: ExitStatus)
    ensures
        es.exited_spec() ==> !es.signaled_spec() && !es.stopped_spec() && !es.continued_spec(),
        es.signaled_spec() ==> !es.exited_spec() && !es.stopped_spec() && !es.continued_spec(),
        es.stopped_spec() ==> !es.exited_spec() && !es.signaled_spec(),
        es.continued_spec() ==> !es.exited_spec() && !es.signaled_spec() && !es.stopped_spec(),
{
    let s = es.status;
    assert((s & 0x7f == 0 ==> !(1 <= (s & 0x7f) <= 0x7e) && s & 0xff != 0x7f && s != 0xffff) && (1
        <= (s & 0x7f) <= 0x7e ==> s & 0x7f != 0 && s & 0xff != 0x7f && s != 0xffff) && (s & 0xff
        == 0x7f ==> s & 0x7f != 0 && !(1 <= (s & 0x7f) <= 0x7e)) && (s == 0xffff ==> s & 0x7f != 0
        && !(1 <= (s & 0x7f) <= 0x7e) && s & 0xff != 0x7f)) by (bit_vector);
}

/// A wait status known not to be a successful exit.
#[derive(Clone, Copy, Debug, PartialEq, Eq, Structural)]
pub struct ExitStatusError {
    pub status: ExitStatus,
}

impl ExitStatusError {
    /// The wrapped status is anything but a zero exit code.
    pub open spec fn wf(self) -> bool {
        !self.status.success_spec()
    }

    /// The non-zero exit code, where the child exited normally.
    pub fn code(self) -> (r: Option<i32>)
        requires
            self.wf(),
        ensures
            r == self.status.code_spec(),
            r matches Some(c) ==> c != 0,
    {
        self.status.code()
    }

    pub fn into_status(self) -> (es: ExitStatus)
        ensures
            es == self.status,
    {
        self.status
    }
}

/// The process-wide exit disposition: success or failure.
#[derive(Clone, Copy, Debug, PartialEq, Eq, Structural)]
pub struct ExitCode {
    pub failed: bool,
}

impl ExitCode {
    pub open spec fn failed_spec(self) -> bool {
        self.failed
    }

    pub fn success() -> (c: ExitCode)
        ensures
            !c.failed_spec(),
    {
        ExitCode { failed: false }
    }

    pub fn failure() -> (c: ExitCode)
        ensures
            c.failed_spec(),
    {
        ExitCode { failed: true }
    }

    pub fn as_i32(&self) -> (r: i32)
        ensures
            r == if self.failed_spec() {
                1int
            } else {
                0int
            },
    {
        if self.failed {
            1
        } else {
            0
        }
    }
}

impl From<u8> for ExitCode {
    /// Zero is success; every other code is failure.
    fn from(code: u8) -> (c: ExitCode) {
        if code == 0 {
            ExitCode { failed: false }
        } else {
            ExitCode { failed: true }
        }
    }
}

impl vstd::std_specs::convert::FromSpecImpl<u8> for ExitCode {
    open spec fn obeys_from_spec() -> bool {
        true
    }

    open spec fn from_spec(code: u8) -> ExitCode {
        ExitCode { failed: code != 0 }
    }
}

/// A spawned child process.  On this platform none can exist.
#[derive(Debug)]
pub struct Process {
    #[allow(dead_code)]
    token: NoHandle,
}

impl Process {
    /// No process of this platform has an id.
    pub fn id(&self) -> (r: u32)
        ensures
            r == 0,
    {
        0
    }

    pub fn kill(&mut self) -> (r: Result<(), IoError>)
        ensures
            r is Err && r->Err_0.is_unsupported(),
    {
        unsupported()
    }

    pub fn wait(&mut self) -> (r: Result<ExitStatus, IoError>)
        ensures
            r is Err && r->Err_0.is_unsupported(),
    {
        unsupported()
    }

    pub fn try_wait(&mut self) -> (r: Result<Option<ExitStatus>, IoError>)
        ensures
            r is Err && r->Err_0.is_unsupported(),
    {
        unsupported()
    }
}

} // verus!
