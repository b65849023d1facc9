use vstd::prelude::*;
use crate::error::{Error, ErrorKind, Result};

verus! {

/// First command number of the handlers that the caller sees; the numbers
/// below it are reserved for the parasite's control channel.
pub const PARASITE_USER_CMDS: u32 = 64;

/// Lifecycle of a control block: `Prepared --infect--> Infected --cure--> Cured`.
#[derive(Clone, Copy, Debug, PartialEq, Eq, Structural)]
pub enum CtlState {
    Prepared,
    Infected,
    Cured,
}

/// The bookkeeping of one infection, as contracts see it.
pub struct CtlView {
    pub pid: i32,
    pub state: CtlState,
    pub nr_threads: nat,
    pub args_size: nat,
    pub log_fd: Option<i32>,
    /// `Some(n)` while a call is in flight whose reply is `n` bytes long.
    pub pending: Option<nat>,
}

/// An error decided by the controller itself, with no native status.
pub open spec fn rejected(kind: ErrorKind) -> Error {
    Error { kind, code: 0 }
}

/// An error reported by the native layer with its status.
pub open spec fn native_failure(kind: ErrorKind, status: i32) -> Error {
    Error { kind, code: status }
}

/// The command number dispatched for the caller's command `cmd`.
pub open spec fn dispatched_cmd(cmd: u32) -> int {
    cmd + PARASITE_USER_CMDS
}

/// A freshly prepared block for process `pid`.
pub open spec fn prepared_view(pid: i32) -> CtlView {
    CtlView {
        pid,
        state: CtlState::Prepared,
        nr_threads: 0,
        args_size: 0,
        log_fd: None,
        pending: None,
    }
}

pub open spec fn prepare_result(pid: i32, attached: bool) -> Result<CtlView> {
    if attached {
        Ok(prepared_view(pid))
    } else {
        Err(rejected(ErrorKind::PrepareFailed))
    }
}

/// Whether an infection with `nr_threads` threads may be started. A thread
/// count that the native layer cannot take (it takes a C `int`) is refused as
/// a failed infection.
pub open spec fn infect_gate(v: CtlView, nr_threads: nat) -> Result<()> {
    if v.state != CtlState::Prepared {
        Err(rejected(ErrorKind::InvalidState))
    } else if nr_threads > i32::MAX {
        Err(rejected(ErrorKind::InfectFailed))
    } else {
        Ok(())
    }
}

/// The block and the outcome after the native infection returned `status`.
pub open spec fn infect_step(v: CtlView, nr_threads: nat, args_size: nat, status: i32) -> (
    CtlView,
    Result<()>,
) {
    match infect_gate(v, nr_threads) {
        Err(e) => (v, Err(e)),
        Ok(_) => if status < 0 {
            (v, Err(native_failure(ErrorKind::InfectFailed, status)))
        } else {
            (
                CtlView {
                    state: CtlState::Infected,
                    nr_threads,
                    args_size,
                    pending: None,
                    ..v
                },
                Ok(()),
            )
        },
    }
}

/// Whether a call, a syscall or a log descriptor change may be issued:
/// only on an infected block with no call in flight.
pub open spec fn call_gate(v: CtlView) -> Result<()> {
    if v.state != CtlState::Infected || v.pending is Some {
        Err(rejected(ErrorKind::InvalidState))
    } else {
        Ok(())
    }
}

pub open spec fn set_log_fd_step(v: CtlView, fd: i32) -> (CtlView, Result<()>) {
    match call_gate(v) {
        Err(e) => (v, Err(e)),
        Ok(_) => (CtlView { log_fd: Some(fd), ..v }, Ok(())),
    }
}

/// Starting a call of `cmd` with `args_len` bytes of arguments and a reply of
/// `ret_size` bytes: the block, and the command number to dispatch.
pub open spec fn begin_rpc_step(v: CtlView, cmd: u32, args_len: nat, ret_size: nat) -> (
    CtlView,
    Result<u32>,
) {
    match call_gate(v) {
        Err(e) => (v, Err(e)),
        Ok(_) => if args_len > v.args_size || ret_size > v.args_size {
            (v, Err(rejected(ErrorKind::ArgsTooLarge)))
        } else if dispatched_cmd(cmd) > u32::MAX {
            (v, Err(rejected(ErrorKind::BadCommand)))
        } else {
            (CtlView { pending: Some(ret_size), ..v }, Ok(dispatched_cmd(cmd) as u32))
        },
    }
}

/// Completing the call in flight: the native dispatch returned `status`, and
/// `region` is what the argument buffer holds afterwards.
pub open spec fn end_rpc_step(v: CtlView, status: i32, region: Seq<u8>) -> (
    CtlView,
    Result<Seq<u8>>,
) {
    if v.state != CtlState::Infected || v.pending is None {
        (v, Err(rejected(ErrorKind::InvalidState)))
    } else {
        let idle = CtlView { pending: None, ..v };
        let ret_size = v.pending->Some_0;
        if status < 0 {
            (idle, Err(native_failure(ErrorKind::RpcCallFailed, status)))
        } else if region.len() < ret_size {
            (idle, Err(rejected(ErrorKind::ArgsTooLarge)))
        } else {
            (idle, Ok(region.take(ret_size as int)))
        }
    }
}

/// The outcome of a remote syscall whose dispatch returned `status` and
/// whose syscall returned `ret`.
pub open spec fn syscall_result(v: CtlView, status: i32, ret: i64) -> Result<i64> {
    match call_gate(v) {
        Err(e) => Err(e),
        Ok(_) => if status < 0 {
            Err(native_failure(ErrorKind::SyscallDispatchFailed, status))
        } else {
            Ok(ret)
        },
    }
}

/// Whether the infection may be unwound: once, and not during a call.
pub open spec fn cure_gate(v: CtlView) -> Result<()> {
    if v.state == CtlState::Cured || v.pending is Some {
        Err(rejected(ErrorKind::InvalidState))
    } else {
        Ok(())
    }
}

pub open spec fn cure_step(v: CtlView, status: i32) -> (CtlView, Result<()>) {
    match cure_gate(v) {
        Err(e) => (v, Err(e)),
        Ok(_) => {
            let cured = CtlView { state: CtlState::Cured, ..v };
            if status < 0 {
                (cured, Err(native_failure(ErrorKind::CureFailed, status)))
            } else {
                (cured, Ok(()))
            }
        },
    }
}

/// What to hand the native layer for one call: the command number to
/// dispatch and the bytes to place in the argument buffer.
pub struct RpcRequest {
    pub cmd: u32,
    pub args: Vec<u8>,
}

/// The control block of one infection. It cannot be copied; every operation
/// checks the lifecycle state before the native layer is touched.
pub struct ParasiteCtl {
    pid: i32,
    state: CtlState,
    nr_threads: usize,
    args_size: usize,
    log_fd: Option<i32>,
    pending: Option<usize>,
}

impl View for ParasiteCtl {
    type V = CtlView;

    closed spec fn view(&self) -> CtlView {
        CtlView {
            pid: self.pid,
            state: self.state,
            nr_threads: self.nr_threads as nat,
            args_size: self.args_size as nat,
            log_fd: self.log_fd,
            pending: match self.pending {
                Some(n) => Some(n as nat),
                None => None,
            },
        }
    }
}

fn rejected_error(kind: ErrorKind) -> (r: Error)
    ensures
        r == rejected(kind),
{
    Error::new(kind, 0)
}

impl ParasiteCtl {
    /// The block for process `pid`, once the native context could be set up
    /// (`attached`); nothing is injected yet.
    pub fn prepare(pid: i32, attached: bool) -> (r: Result<ParasiteCtl>)
        ensures
            match r {
                Ok(c) => prepare_result(pid, attached) == Ok::<CtlView, Error>(c@),
                Err(e) => prepare_result(pid, attached) == Err::<CtlView, Error>(e),
            },
    {
        if attached {
            Ok(ParasiteCtl {
                pid,
                state: CtlState::Prepared,
                nr_threads: 0,
                args_size: 0,
                log_fd: None,
                pending: None,
            })
        } else {
            Err(rejected_error(ErrorKind::PrepareFailed))
        }
    }

    /// Whether the native infection may be started with `nr_threads` threads.
    pub fn check_infect(&self, nr_threads: usize) -> (r: Result<()>)
        ensures
            r == infect_gate(self@, nr_threads as nat),
    {
        if self.state != CtlState::Prepared {
            Err(rejected_error(ErrorKind::InvalidState))
        } else if nr_threads > i32::MAX as usize {
            Err(rejected_error(ErrorKind::InfectFailed))
        } else {
            Ok(())
        }
    }

    /// Records the native infection's `status`: on success the block is
    /// infected, with the thread count and buffer size fixed from now on.
    pub fn infect(&mut self, nr_threads: usize, args_size: usize, status: i32) -> (r: Result<()>)
        ensures
            (final(self)@, r) == infect_step(old(self)@, nr_threads as nat, args_size as nat, status),
    {
        match self.check_infect(nr_threads) {
            Err(e) => Err(e),
            Ok(_) => {
                if status < 0 {
                    Err(Error::new(ErrorKind::InfectFailed, status))
                } else {
                    self.state = CtlState::Infected;
                    self.nr_threads = nr_threads;
                    self.args_size = args_size;
                    self.pending = None;
                    Ok(())
                }
            },
        }
    }

    /// Whether a call, a syscall or a log descriptor change may be issued now.
    pub fn check_call(&self) -> (r: Result<()>)
        ensures
            r == call_gate(self@),
    {
        if self.state != CtlState::Infected || self.pending.is_some() {
            Err(rejected_error(ErrorKind::InvalidState))
        } else {
            Ok(())
        }
    }

    /// Records the descriptor that the parasite writes its log text to.
    pub fn set_log_fd(&mut self, fd: i32) -> (r: Result<()>)
        ensures
            (final(self)@, r) == set_log_fd_step(old(self)@, fd),
    {
        match self.check_call() {
            Err(e) => Err(e),
            Ok(_) => {
                self.log_fd = Some(fd);
                Ok(())
            },
        }
    }

    /// Starts the call of the caller's command `cmd` with the bytes `args`,
    /// expecting a reply of `ret_size` bytes. Both must fit into the buffer
    /// negotiated at infect time. On success the call is in flight until
    /// `end_rpc`, and the request says what to dispatch.
    pub fn begin_rpc(&mut self, cmd: u32, args: Vec<u8>, ret_size: usize) -> (r: Result<RpcRequest>)
        ensures
            final(self)@ == begin_rpc_step(old(self)@, cmd, args@.len(), ret_size as nat).0,
            match r {
                Ok(req) => begin_rpc_step(old(self)@, cmd, args@.len(), ret_size as nat).1
                    == Ok::<u32, Error>(req.cmd) && req.args@ == args@,
                Err(e) => begin_rpc_step(old(self)@, cmd, args@.len(), ret_size as nat).1
                    == Err::<u32, Error>(e),
            },
    {
        match self.check_call() {
            Err(e) => Err(e),
            Ok(_) => {
                if args.len() > self.args_size || ret_size > self.args_size {
                    Err(rejected_error(ErrorKind::ArgsTooLarge))
                } else if cmd > u32::MAX - PARASITE_USER_CMDS {
                    Err(rejected_error(ErrorKind::BadCommand))
                } else {
                    self.pending = Some(ret_size);
                    Ok(RpcRequest { cmd: cmd + PARASITE_USER_CMDS, args })
                }
            },
        }
    }

    /// Completes the call in flight: `status` is what the native dispatch
    /// returned, `region` what the argument buffer holds afterwards. The reply
    /// is the first bytes of `region`, as many as `begin_rpc` was told.
    pub fn end_rpc(&mut self, status: i32, region: Vec<u8>) -> (r: Result<Vec<u8>>)
        ensures
            final(self)@ == end_rpc_step(old(self)@, status, region@).0,
            match r {
                Ok(reply) => end_rpc_step(old(self)@, status, region@).1 == Ok::<Seq<u8>, Error>(
                    reply@,
                ),
                Err(e) => end_rpc_step(old(self)@, status, region@).1 == Err::<Seq<u8>, Error>(e),
            },
    {
        if self.state != CtlState::Infected {
            return Err(rejected_error(ErrorKind::InvalidState));
        }
        match self.pending {
            None => Err(rejected_error(ErrorKind::InvalidState)),
            Some(ret_size) => {
                self.pending = None;
                if status < 0 {
                    Err(Error::new(ErrorKind::RpcCallFailed, status))
                } else if region.len() < ret_size {
                    Err(rejected_error(ErrorKind::ArgsTooLarge))
                } else {
                    let mut reply = region;
                    reply.truncate(ret_size);
                    proof {
                        assert(reply@ =~= region@.take(ret_size as int));
                    }
                    Ok(reply)
                }
            },
        }
    }

    /// The outcome of a remote syscall: `status` is what the dispatch
    /// returned, `ret` the syscall's own return value. A negative `ret` is a
    /// result like any other.
    pub fn syscall(&self, status: i32, ret: i64) -> (r: Result<i64>)
        ensures
            r == syscall_result(self@, status, ret),
    {
        match self.check_call() {
            Err(e) => Err(e),
            Ok(_) => {
                if status < 0 {
                    Err(Error::new(ErrorKind::SyscallDispatchFailed, status))
                } else {
                    Ok(ret)
                }
            },
        }
    }

    /// Whether the infection may be unwound now.
    pub fn check_cure(&self) -> (r: Result<()>)
        ensures
            r == cure_gate(self@),
    {
        if self.state == CtlState::Cured || self.pending.is_some() {
            Err(rejected_error(ErrorKind::InvalidState))
        } else {
            Ok(())
        }
    }

    /// Records the native unwind's `status`. Either way the block is cured
    /// afterwards: its handle must not be used again, and a second cure is
    /// refused.
    pub fn cure(&mut self, status: i32) -> (r: Result<()>)
        ensures
            (final(self)@, r) == cure_step(old(self)@, status),
    {
        match self.check_cure() {
            Err(e) => Err(e),
            Ok(_) => {
                self.state = CtlState::Cured;
                if status < 0 {
                    Err(Error::new(ErrorKind::CureFailed, status))
                } else {
                    Ok(())
                }
            },
        }
    }

    pub fn pid(&self) -> (r: i32)
        ensures
            r == self@.pid,
    {
        self.pid
    }

    pub fn state(&self) -> (r: CtlState)
        ensures
            r == self@.state,
    {
        self.state
    }

    /// The thread count fixed at infect time (0 before).
    pub fn nr_threads(&self) -> (r: usize)
        ensures
            r as nat == self@.nr_threads,
    {
        self.nr_threads
    }

    /// The argument buffer size fixed at infect time (0 before).
    pub fn args_size(&self) -> (r: usize)
        ensures
            r as nat == self@.args_size,
    {
        self.args_size
    }

    pub fn log_fd(&self) -> (r: Option<i32>)
        ensures
            r == self@.log_fd,
    {
        self.log_fd
    }

    /// Whether a call is in flight.
    pub fn is_busy(&self) -> (r: bool)
        ensures
            r == self@.pending is Some,
    {
        self.pending.is_some()
    }

    /// Whether the native context still has to be unwound before the block
    /// is discarded.
    pub fn needs_cure(&self) -> (r: bool)
        ensures
            r == (self@.state != CtlState::Cured),
    {
        self.state != CtlState::Cured
    }
}

} // verus!
