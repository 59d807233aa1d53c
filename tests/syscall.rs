use rcore_process::{
    sys_call, sys_close, sys_dup, sys_exec, sys_exit, sys_fork, sys_get_time, sys_getpid,
    sys_kill, sys_lab6_set_priority, sys_open, sys_putc, sys_read, sys_sleep, sys_wait,
    sys_write, sys_yield, Syscall, SyscallId,
};

fn req(id: usize, a0: usize, a1: usize, a2: usize) -> Syscall {
    Syscall { id, arg0: a0, arg1: a1, arg2: a2, arg3: 0, arg4: 0, arg5: 0 }
}

#[test]
fn core_operation_numbers() {
    assert_eq!(sys_exit(3), req(1, 3, 0, 0));
    assert_eq!(sys_fork(), req(2, 0, 0, 0));
    assert_eq!(sys_wait(4, 0x2000), req(3, 4, 0x2000, 0));
    assert_eq!(sys_yield(), req(10, 0, 0, 0));
    assert_eq!(sys_sleep(50), req(11, 50, 0, 0));
    assert_eq!(sys_kill(6), req(12, 6, 0, 0));
    assert_eq!(sys_getpid(), req(18, 0, 0, 0));
}

#[test]
fn file_requests() {
    assert_eq!(sys_write(1, 0x1000, 5), req(103, 1, 0x1000, 5));
    assert_eq!(sys_read(0, 0x3000, 8), req(102, 0, 0x3000, 8));
    assert_eq!(sys_open(0x4000, 2), req(100, 0x4000, 2, 0));
    assert_eq!(sys_close(3), req(101, 3, 0, 0));
    assert_eq!(sys_dup(1, 2), req(130, 1, 2, 0));
}

#[test]
fn other_requests() {
    assert_eq!(sys_exec(0x5000, 2, 0x6000), req(4, 0x5000, 2, 0x6000));
    assert_eq!(sys_get_time(), req(17, 0, 0, 0));
    assert_eq!(sys_lab6_set_priority(7), req(255, 7, 0, 0));
    assert_eq!(sys_putc(b'A'), req(30, 65, 0, 0));
}

#[test]
fn raw_request_keeps_all_arguments() {
    let r = sys_call(SyscallId::Mmap, 1, 2, 3, 4, 5, 6);
    assert_eq!(r, Syscall { id: 20, arg0: 1, arg1: 2, arg2: 3, arg3: 4, arg4: 5, arg5: 6 });
    assert_eq!(SyscallId::GetDirEntry.number(), 128);
}
