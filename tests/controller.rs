use compel::ctl::{CtlState, ParasiteCtl, PARASITE_USER_CMDS};
use compel::error::{Error, ErrorKind};

fn invalid_state() -> Error {
    Error::new(ErrorKind::InvalidState, 0)
}

fn infected(nr_threads: usize, args_size: usize) -> ParasiteCtl {
    let mut ctl = ParasiteCtl::prepare(1234, true).unwrap();
    ctl.infect(nr_threads, args_size, 0).unwrap();
    ctl
}

#[test]
fn prepare_gives_prepared_block() {
    let ctl = ParasiteCtl::prepare(1234, true).unwrap();
    assert_eq!(ctl.state(), CtlState::Prepared);
    assert_eq!(ctl.pid(), 1234);
    assert_eq!(ctl.nr_threads(), 0);
    assert_eq!(ctl.args_size(), 0);
    assert_eq!(ctl.log_fd(), None);
    assert!(!ctl.is_busy());
    assert!(ctl.needs_cure());
}

#[test]
fn prepare_failure() {
    let e = ParasiteCtl::prepare(1234, false).err().unwrap();
    assert_eq!(e, Error::new(ErrorKind::PrepareFailed, 0));
    assert_eq!(e.op_name(), "prepare");
}

#[test]
fn prepared_block_rejects_calls() {
    let mut ctl = ParasiteCtl::prepare(42, true).unwrap();
    assert_eq!(ctl.check_call(), Err(invalid_state()));
    assert_eq!(ctl.begin_rpc(0, vec![1, 2, 3], 0).err(), Some(invalid_state()));
    assert_eq!(ctl.syscall(0, 7), Err(invalid_state()));
    assert_eq!(ctl.set_log_fd(3), Err(invalid_state()));
    assert_eq!(ctl.end_rpc(0, vec![]).err(), Some(invalid_state()));
    assert_eq!(ctl.state(), CtlState::Prepared);
    assert_eq!(ctl.log_fd(), None);
}

#[test]
fn infect_fixes_threads_and_size() {
    let ctl = infected(3, 128);
    assert_eq!(ctl.state(), CtlState::Infected);
    assert_eq!(ctl.nr_threads(), 3);
    assert_eq!(ctl.args_size(), 128);
    assert_eq!(ctl.check_call(), Ok(()));
}

#[test]
fn infect_native_failure_keeps_block_prepared() {
    let mut ctl = ParasiteCtl::prepare(1234, true).unwrap();
    assert_eq!(ctl.infect(1, 64, -12), Err(Error::new(ErrorKind::InfectFailed, -12)));
    assert_eq!(ctl.state(), CtlState::Prepared);
    assert_eq!(ctl.args_size(), 0);
}

#[test]
fn infect_thread_count_too_large() {
    let mut ctl = ParasiteCtl::prepare(1234, true).unwrap();
    let too_many = i32::MAX as usize + 1;
    assert_eq!(ctl.check_infect(too_many), Err(Error::new(ErrorKind::InfectFailed, 0)));
    assert_eq!(ctl.infect(too_many, 64, 0), Err(Error::new(ErrorKind::InfectFailed, 0)));
    assert_eq!(ctl.check_infect(i32::MAX as usize), Ok(()));
}

#[test]
fn infect_twice_is_refused() {
    let mut ctl = infected(1, 64);
    assert_eq!(ctl.check_infect(1), Err(invalid_state()));
    assert_eq!(ctl.infect(2, 32, 0), Err(invalid_state()));
    assert_eq!(ctl.nr_threads(), 1);
    assert_eq!(ctl.args_size(), 64);
}

#[test]
fn cure_succeeds_once() {
    let mut ctl = infected(1, 64);
    assert_eq!(ctl.check_cure(), Ok(()));
    assert_eq!(ctl.cure(0), Ok(()));
    assert_eq!(ctl.state(), CtlState::Cured);
    assert!(!ctl.needs_cure());
    assert_eq!(ctl.check_cure(), Err(invalid_state()));
    assert_eq!(ctl.cure(0), Err(invalid_state()));
}

#[test]
fn cure_failure_is_terminal() {
    let mut ctl = infected(1, 64);
    assert_eq!(ctl.cure(-5), Err(Error::new(ErrorKind::CureFailed, -5)));
    assert_eq!(ctl.state(), CtlState::Cured);
    assert_eq!(ctl.cure(0), Err(invalid_state()));
}

#[test]
fn cured_block_rejects_calls() {
    let mut ctl = infected(1, 64);
    ctl.cure(0).unwrap();
    assert_eq!(ctl.begin_rpc(0, vec![1], 1).err(), Some(invalid_state()));
    assert_eq!(ctl.syscall(0, 1), Err(invalid_state()));
    assert_eq!(ctl.set_log_fd(2), Err(invalid_state()));
}

#[test]
fn cure_of_prepared_block() {
    let mut ctl = ParasiteCtl::prepare(1234, true).unwrap();
    assert_eq!(ctl.cure(0), Ok(()));
    assert_eq!(ctl.cure(0), Err(invalid_state()));
}

#[test]
fn set_log_fd_on_infected_block() {
    let mut ctl = infected(1, 64);
    assert_eq!(ctl.set_log_fd(7), Ok(()));
    assert_eq!(ctl.log_fd(), Some(7));
}

#[test]
fn command_numbers_are_offset() {
    let mut ctl = infected(1, 64);
    let a = ctl.begin_rpc(0, vec![], 0).unwrap();
    assert_eq!(a.cmd, PARASITE_USER_CMDS);
    assert_eq!(a.cmd, 64);
    ctl.end_rpc(0, vec![]).unwrap();
    let b = ctl.begin_rpc(5, vec![], 0).unwrap();
    assert_eq!(b.cmd, 69);
    assert_eq!(b.cmd - a.cmd, 5);
}

#[test]
fn command_beyond_range_is_refused() {
    let mut ctl = infected(1, 64);
    let top = u32::MAX - PARASITE_USER_CMDS;
    assert_eq!(ctl.begin_rpc(top + 1, vec![], 0).err(), Some(Error::new(ErrorKind::BadCommand, 0)));
    assert!(!ctl.is_busy());
    assert_eq!(ctl.begin_rpc(top, vec![], 0).unwrap().cmd, u32::MAX);
}

#[test]
fn args_larger_than_buffer_are_refused() {
    let mut ctl = infected(1, 4);
    let too_large = Error::new(ErrorKind::ArgsTooLarge, 0);
    assert_eq!(ctl.begin_rpc(0, vec![0; 5], 0).err(), Some(too_large));
    assert_eq!(ctl.begin_rpc(0, vec![0; 4], 5).err(), Some(too_large));
    assert!(!ctl.is_busy());
    let req = ctl.begin_rpc(0, vec![9; 4], 4).unwrap();
    assert_eq!(req.args, vec![9, 9, 9, 9]);
}

#[test]
fn round_trip_through_echo_handler() {
    let mut ctl = infected(1, 16);
    let value: u64 = 0x0102_0304_0506_0708;
    let req = ctl.begin_rpc(3, value.to_le_bytes().to_vec(), 8).unwrap();
    let mut region = req.args.clone();
    region.extend_from_slice(&[0xff; 8]);
    let reply = ctl.end_rpc(0, region).unwrap();
    assert_eq!(u64::from_le_bytes(reply.try_into().unwrap()), value);
    assert!(!ctl.is_busy());
}

#[test]
fn second_call_while_busy_is_refused() {
    let mut ctl = infected(1, 64);
    ctl.begin_rpc(0, vec![1], 0).unwrap();
    assert!(ctl.is_busy());
    assert_eq!(ctl.begin_rpc(1, vec![2], 0).err(), Some(invalid_state()));
    assert_eq!(ctl.syscall(0, 1), Err(invalid_state()));
    assert_eq!(ctl.set_log_fd(1), Err(invalid_state()));
    assert_eq!(ctl.check_cure(), Err(invalid_state()));
    assert_eq!(ctl.cure(0), Err(invalid_state()));
    assert_eq!(ctl.end_rpc(0, vec![]), Ok(vec![]));
    assert_eq!(ctl.begin_rpc(1, vec![2], 0).unwrap().cmd, 65);
}

#[test]
fn rpc_native_failure() {
    let mut ctl = infected(1, 64);
    ctl.begin_rpc(0, vec![1], 1).unwrap();
    assert_eq!(ctl.end_rpc(-3, vec![1]).err(), Some(Error::new(ErrorKind::RpcCallFailed, -3)));
    assert!(!ctl.is_busy());
    assert_eq!(ctl.end_rpc(0, vec![1]).err(), Some(invalid_state()));
}

#[test]
fn short_reply_region_is_refused() {
    let mut ctl = infected(1, 64);
    ctl.begin_rpc(0, vec![], 8).unwrap();
    assert_eq!(ctl.end_rpc(0, vec![0; 7]).err(), Some(Error::new(ErrorKind::ArgsTooLarge, 0)));
    assert!(!ctl.is_busy());
}

#[test]
fn prepare_infect_call_cure_scenario() {
    let mut ctl = ParasiteCtl::prepare(1234, true).unwrap();
    assert_eq!(ctl.infect(1, 64, 0), Ok(()));
    let req = ctl.begin_rpc(0, 42u64.to_le_bytes().to_vec(), 8).unwrap();
    assert_eq!(req.cmd, PARASITE_USER_CMDS);
    let input = u64::from_le_bytes(req.args.clone().try_into().unwrap());
    let region = (input * 2).to_le_bytes().to_vec();
    let reply = ctl.end_rpc(0, region).unwrap();
    assert_eq!(u64::from_le_bytes(reply.try_into().unwrap()), 84u64);
    assert_eq!(ctl.cure(0), Ok(()));
}

#[test]
fn syscall_returns_raw_value() {
    let ctl = infected(1, 64);
    assert_eq!(ctl.syscall(0, 1234), Ok(1234));
    assert_eq!(ctl.syscall(0, -2), Ok(-2));
    assert_eq!(ctl.syscall(-1, 1234), Err(Error::new(ErrorKind::SyscallDispatchFailed, -1)));
}

#[test]
fn error_names() {
    assert_eq!(Error::new(ErrorKind::InfectFailed, -1).op_name(), "infect");
    assert_eq!(Error::new(ErrorKind::InvalidState, 0).op_name(), "state_check");
    assert_eq!(Error::new(ErrorKind::ArgsTooLarge, 0).op_name(), "args_check");
    assert_eq!(Error::new(ErrorKind::BadCommand, 0).op_name(), "command_check");
    assert_eq!(Error::new(ErrorKind::RpcCallFailed, -1).op_name(), "rpc_call_sync");
    assert_eq!(Error::new(ErrorKind::SyscallDispatchFailed, -1).op_name(), "syscall");
    assert_eq!(Error::new(ErrorKind::CureFailed, -1).op_name(), "cure");
    let e = Error::new(ErrorKind::CureFailed, -9);
    assert_eq!(e.kind, ErrorKind::CureFailed);
    assert_eq!(e.code, -9);
}
