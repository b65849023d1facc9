use vstd::prelude::*;
use crate::ctl::{
    begin_rpc_step, call_gate, cure_step, dispatched_cmd, end_rpc_step, infect_step, prepare_result,
    prepared_view, rejected, set_log_fd_step, syscall_result, CtlState, CtlView, PARASITE_USER_CMDS,
};
use crate::error::{Error, ErrorKind};

verus! {

/// A successful prepare yields a block in state `Prepared`, and every call,
/// syscall or log descriptor change issued on it is refused with
/// `InvalidState`.
pub proof fn lemma_prepared_rejects_calls(
    pid: i32,
    cmd: u32,
    args_len: nat,
    ret_size: nat,
    fd: i32,
    status: i32,
    ret: i64,
)
    ensures
        prepare_result(pid, true) == Ok::<CtlView, Error>(prepared_view(pid)),
        prepared_view(pid).state == CtlState::Prepared,
        begin_rpc_step(prepared_view(pid), cmd, args_len, ret_size) == (
            prepared_view(pid),
            Err::<u32, Error>(rejected(ErrorKind::InvalidState)),
        ),
        syscall_result(prepared_view(pid), status, ret) == Err::<i64, Error>(
            rejected(ErrorKind::InvalidState),
        ),
        set_log_fd_step(prepared_view(pid), fd) == (
            prepared_view(pid),
            Err::<(), Error>(rejected(ErrorKind::InvalidState)),
        ),
{
}

/// After a successful infect, a cure whose native unwind succeeds returns
/// `Ok`, and any further cure of the same block is refused with
/// `InvalidState`, whatever the first cure's outcome was.
pub proof fn lemma_cure_once(
    v: CtlView,
    nr_threads: nat,
    args_size: nat,
    infect_status: i32,
    first: i32,
    second: i32,
)
    requires
        infect_step(v, nr_threads, args_size, infect_status).1 is Ok,
    ensures
        ({
            let infected = infect_step(v, nr_threads, args_size, infect_status).0;
            &&& first >= 0 ==> cure_step(infected, first).1 == Ok::<(), Error>(())
            &&& cure_step(infected, first).0.state == CtlState::Cured
            &&& cure_step(cure_step(infected, first).0, second).1 == Err::<(), Error>(
                rejected(ErrorKind::InvalidState),
            )
        }),
{
}

/// A call whose handler copies its input to its output hands back exactly
/// the bytes that were sent, whatever else the buffer holds after them.
pub proof fn lemma_round_trip(v: CtlView, cmd: u32, args: Seq<u8>, status: i32, rest: Seq<u8>)
    requires
        call_gate(v) is Ok,
        args.len() <= v.args_size,
        dispatched_cmd(cmd) <= u32::MAX,
        status >= 0,
    ensures
        begin_rpc_step(v, cmd, args.len(), args.len()).1 is Ok,
        end_rpc_step(begin_rpc_step(v, cmd, args.len(), args.len()).0, status, args + rest).1
            == Ok::<Seq<u8>, Error>(args),
        end_rpc_step(begin_rpc_step(v, cmd, args.len(), args.len()).0, status, args + rest).0
            == v,
{
    assert((args + rest).take(args.len() as int) =~= args);
}

/// Dispatched command numbers keep the distances between the caller's
/// commands and never fall into the internal command range.
pub proof fn lemma_command_offset(
    v: CtlView,
    c1: u32,
    c2: u32,
    args_len: nat,
    ret_size: nat,
)
    requires
        begin_rpc_step(v, c1, args_len, ret_size).1 is Ok,
        begin_rpc_step(v, c2, args_len, ret_size).1 is Ok,
    ensures
        ({
            let d1 = begin_rpc_step(v, c1, args_len, ret_size).1->Ok_0;
            let d2 = begin_rpc_step(v, c2, args_len, ret_size).1->Ok_0;
            &&& d1 - d2 == c1 - c2
            &&& d1 >= PARASITE_USER_CMDS
            &&& d2 >= PARASITE_USER_CMDS
            &&& c1 != c2 ==> d1 != d2
        }),
{
}

/// While a call is in flight, a second call, a syscall, a log descriptor
/// change and a cure are all refused with `InvalidState`, and leave the block
/// as it was.
pub proof fn lemma_one_call_in_flight(
    v: CtlView,
    c1: u32,
    len1: nat,
    ret1: nat,
    c2: u32,
    len2: nat,
    ret2: nat,
    fd: i32,
    status: i32,
    ret: i64,
)
    requires
        begin_rpc_step(v, c1, len1, ret1).1 is Ok,
    ensures
        ({
            let busy = begin_rpc_step(v, c1, len1, ret1).0;
            let refused = rejected(ErrorKind::InvalidState);
            &&& begin_rpc_step(busy, c2, len2, ret2) == (busy, Err::<u32, Error>(refused))
            &&& syscall_result(busy, status, ret) == Err::<i64, Error>(refused)
            &&& set_log_fd_step(busy, fd) == (busy, Err::<(), Error>(refused))
            &&& cure_step(busy, status) == (busy, Err::<(), Error>(refused))
        }),
{
}

} // verus!
