use vstd::prelude::*;

verus! {

/// What went wrong, one variant per failing operation or rejected request.
#[derive(Clone, Copy, Debug, PartialEq, Eq, Structural)]
pub enum ErrorKind {
    /// The target could not be attached or its context could not be allocated.
    PrepareFailed,
    /// Injection failed after a successful prepare.
    InfectFailed,
    /// The operation is not allowed in the control block's current state.
    InvalidState,
    /// A value does not fit into the argument buffer negotiated at infect time.
    ArgsTooLarge,
    /// A command identifier that cannot be moved past the internal command range.
    BadCommand,
    /// The synchronous call dispatch failed, or the handler reported an error.
    RpcCallFailed,
    /// The syscall injection mechanism itself failed.
    SyscallDispatchFailed,
    /// Unwinding the infection failed.
    CureFailed,
}

/// A failure: what failed, and the numeric status of the underlying
/// operation (0 where the failure was decided here rather than reported).
#[derive(Clone, Copy, Debug, PartialEq, Eq, Structural)]
pub struct Error {
    pub kind: ErrorKind,
    pub code: i32,
}

pub type Result<T> = core::result::Result<T, Error>;

impl Error {
    pub fn new(kind: ErrorKind, code: i32) -> (r: Error)
        ensures
            r.kind == kind,
            r.code == code,
    {
        Error { kind, code }
    }

    /// The symbolic name of the operation that failed.
    pub fn op_name(&self) -> (r: &'static str)
        ensures
            r@ == op_name_of(self.kind),
    {
        proof {
            reveal_strlit("prepare");
            reveal_strlit("infect");
            reveal_strlit("state_check");
            reveal_strlit("args_check");
            reveal_strlit("command_check");
            reveal_strlit("rpc_call_sync");
            reveal_strlit("syscall");
            reveal_strlit("cure");
        }
        match self.kind {
            ErrorKind::PrepareFailed => "prepare",
            ErrorKind::InfectFailed => "infect",
            ErrorKind::InvalidState => "state_check",
            ErrorKind::ArgsTooLarge => "args_check",
            ErrorKind::BadCommand => "command_check",
            ErrorKind::RpcCallFailed => "rpc_call_sync",
            ErrorKind::SyscallDispatchFailed => "syscall",
            ErrorKind::CureFailed => "cure",
        }
    }
}

/// The operation name carried by each kind of failure.
pub open spec fn op_name_of(kind: ErrorKind) -> Seq<char> {
    match kind {
        ErrorKind::PrepareFailed => "prepare"@,
        ErrorKind::InfectFailed => "infect"@,
        ErrorKind::InvalidState => "state_check"@,
        ErrorKind::ArgsTooLarge => "args_check"@,
        ErrorKind::BadCommand => "command_check"@,
        ErrorKind::RpcCallFailed => "rpc_call_sync"@,
        ErrorKind::SyscallDispatchFailed => "syscall"@,
        ErrorKind::CureFailed => "cure"@,
    }
}

} // verus!
