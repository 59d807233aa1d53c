//! The requests that user programs hand to the kernel's trap: an operation
//! number and six word-sized arguments. Raising the trap itself is left to
//! the caller; these functions say what each request holds.
use vstd::prelude::*;

verus! {

/// The operations that the kernel's trap serves.
#[derive(Clone, Copy, Debug, PartialEq, Eq, Structural)]
pub enum SyscallId {
    Exit,
    Fork,
    Wait,
    Exec,
    Clone,
    Yield,
    Sleep,
    Kill,
    GetTime,
    GetPid,
    Mmap,
    Munmap,
    Shmem,
    Putc,
    Pgdir,
    Open,
    Close,
    Read,
    Write,
    Seek,
    Fstat,
    Fsync,
    GetCwd,
    GetDirEntry,
    Dup,
    Lab6SetPriority,
}

impl SyscallId {
    /// The number that identifies the operation to the trap.
    pub open spec fn spec_number(self) -> usize {
        match self {
            SyscallId::Exit => 1,
            SyscallId::Fork => 2,
            SyscallId::Wait => 3,
            SyscallId::Exec => 4,
            SyscallId::Clone => 5,
            SyscallId::Yield => 10,
            SyscallId::Sleep => 11,
            SyscallId::Kill => 12,
            SyscallId::GetTime => 17,
            SyscallId::GetPid => 18,
            SyscallId::Mmap => 20,
            SyscallId::Munmap => 21,
            SyscallId::Shmem => 22,
            SyscallId::Putc => 30,
            SyscallId::Pgdir => 31,
            SyscallId::Open => 100,
            SyscallId::Close => 101,
            SyscallId::Read => 102,
            SyscallId::Write => 103,
            SyscallId::Seek => 104,
            SyscallId::Fstat => 110,
            SyscallId::Fsync => 111,
            SyscallId::GetCwd => 121,
            SyscallId::GetDirEntry => 128,
            SyscallId::Dup => 130,
            SyscallId::Lab6SetPriority => 255,
        }
    }

    pub fn number(self) -> (r: usize)
        ensures
            r == self.spec_number(),
    {
        match self {
            SyscallId::Exit => 1,
            SyscallId::Fork => 2,
            SyscallId::Wait => 3,
            SyscallId::Exec => 4,
            SyscallId::Clone => 5,
            SyscallId::Yield => 10,
            SyscallId::Sleep => 11,
            SyscallId::Kill => 12,
            SyscallId::GetTime => 17,
            SyscallId::GetPid => 18,
            SyscallId::Mmap => 20,
            SyscallId::Munmap => 21,
            SyscallId::Shmem => 22,
            SyscallId::Putc => 30,
            SyscallId::Pgdir => 31,
            SyscallId::Open => 100,
            SyscallId::Close => 101,
            SyscallId::Read => 102,
            SyscallId::Write => 103,
            SyscallId::Seek => 104,
            SyscallId::Fstat => 110,
            SyscallId::Fsync => 111,
            SyscallId::GetCwd => 121,
            SyscallId::GetDirEntry => 128,
            SyscallId::Dup => 130,
            SyscallId::Lab6SetPriority => 255,
        }
    }
}

/// One request to the trap: the operation's number in the first register,
/// the arguments in the six after it.
#[derive(Clone, Copy, Debug, PartialEq, Eq, Structural)]
pub struct Syscall {
    pub id: usize,
    pub arg0: usize,
    pub arg1: usize,
    pub arg2: usize,
    pub arg3: usize,
    pub arg4: usize,
    pub arg5: usize,
}

/// The request for operation `id` with the given arguments.
pub open spec fn frame(id: SyscallId, a0: usize, a1: usize, a2: usize, a3: usize, a4: usize, a5: usize) -> Syscall {
    Syscall { id: id.spec_number(), arg0: a0, arg1: a1, arg2: a2, arg3: a3, arg4: a4, arg5: a5 }
}

/// The request for operation `id` with the given arguments.
pub fn sys_call(id: SyscallId, a0: usize, a1: usize, a2: usize, a3: usize, a4: usize, a5: usize) -> (r: Syscall)
    ensures
        r == frame(id, a0, a1, a2, a3, a4, a5),
{
    Syscall { id: id.number(), arg0: a0, arg1: a1, arg2: a2, arg3: a3, arg4: a4, arg5: a5 }
}

/// Ends the calling process with `code`; the trap does not return from it.
pub fn sys_exit(code: usize) -> (r: Syscall)
    ensures
        r == frame(SyscallId::Exit, code, 0, 0, 0, 0, 0),
{
    sys_call(SyscallId::Exit, code, 0, 0, 0, 0, 0)
}

/// Runs the program named by the string at `name`, with `argc` arguments
/// listed at `argv`.
pub fn sys_exec(name: usize, argc: usize, argv: usize) -> (r: Syscall)
    ensures
        r == frame(SyscallId::Exec, name, argc, argv, 0, 0, 0),
{
    sys_call(SyscallId::Exec, name, argc, argv, 0, 0, 0)
}

/// Writes the `len` bytes at `base` to the file `fd`.
pub fn sys_write(fd: usize, base: usize, len: usize) -> (r: Syscall)
    ensures
        r == frame(SyscallId::Write, fd, base, len, 0, 0, 0),
{
    sys_call(SyscallId::Write, fd, base, len, 0, 0, 0)
}

/// Reads up to `len` bytes of the file `fd` to `base`.
pub fn sys_read(fd: usize, base: usize, len: usize) -> (r: Syscall)
    ensures
        r == frame(SyscallId::Read, fd, base, len, 0, 0, 0),
{
    sys_call(SyscallId::Read, fd, base, len, 0, 0, 0)
}

/// Opens the file whose zero-terminated path is at `path`.
pub fn sys_open(path: usize, flags: usize) -> (r: Syscall)
    ensures
        r == frame(SyscallId::Open, path, flags, 0, 0, 0, 0),
{
    sys_call(SyscallId::Open, path, flags, 0, 0, 0, 0)
}

pub fn sys_close(fd: usize) -> (r: Syscall)
    ensures
        r == frame(SyscallId::Close, fd, 0, 0, 0, 0, 0),
{
    sys_call(SyscallId::Close, fd, 0, 0, 0, 0, 0)
}

pub fn sys_dup(fd1: usize, fd2: usize) -> (r: Syscall)
    ensures
        r == frame(SyscallId::Dup, fd1, fd2, 0, 0, 0, 0),
{
    sys_call(SyscallId::Dup, fd1, fd2, 0, 0, 0, 0)
}

/// Forks the calling process; the trap returns the child's pid.
pub fn sys_fork() -> (r: Syscall)
    ensures
        r == frame(SyscallId::Fork, 0, 0, 0, 0, 0, 0),
{
    sys_call(SyscallId::Fork, 0, 0, 0, 0, 0, 0)
}

/// Waits for the process `pid` to exit; the trap returns its pid and
/// stores its exit code at `code` unless that is zero.
pub fn sys_wait(pid: usize, code: usize) -> (r: Syscall)
    ensures
        r == frame(SyscallId::Wait, pid, code, 0, 0, 0, 0),
{
    sys_call(SyscallId::Wait, pid, code, 0, 0, 0, 0)
}

pub fn sys_yield() -> (r: Syscall)
    ensures
        r == frame(SyscallId::Yield, 0, 0, 0, 0, 0, 0),
{
    sys_call(SyscallId::Yield, 0, 0, 0, 0, 0, 0)
}

/// Kills the process `pid`.
pub fn sys_kill(pid: usize) -> (r: Syscall)
    ensures
        r == frame(SyscallId::Kill, pid, 0, 0, 0, 0, 0),
{
    sys_call(SyscallId::Kill, pid, 0, 0, 0, 0, 0)
}

/// The trap returns the calling process's pid.
pub fn sys_getpid() -> (r: Syscall)
    ensures
        r == frame(SyscallId::GetPid, 0, 0, 0, 0, 0, 0),
{
    sys_call(SyscallId::GetPid, 0, 0, 0, 0, 0, 0)
}

pub fn sys_sleep(time: usize) -> (r: Syscall)
    ensures
        r == frame(SyscallId::Sleep, time, 0, 0, 0, 0, 0),
{
    sys_call(SyscallId::Sleep, time, 0, 0, 0, 0, 0)
}

pub fn sys_get_time() -> (r: Syscall)
    ensures
        r == frame(SyscallId::GetTime, 0, 0, 0, 0, 0, 0),
{
    sys_call(SyscallId::GetTime, 0, 0, 0, 0, 0, 0)
}

pub fn sys_lab6_set_priority(priority: usize) -> (r: Syscall)
    ensures
        r == frame(SyscallId::Lab6SetPriority, priority, 0, 0, 0, 0, 0),
{
    sys_call(SyscallId::Lab6SetPriority, priority, 0, 0, 0, 0, 0)
}

/// Writes the byte `c` to the console.
pub fn sys_putc(c: u8) -> (r: Syscall)
    ensures
        r == frame(SyscallId::Putc, c as usize, 0, 0, 0, 0, 0),
{
    sys_call(SyscallId::Putc, c as usize, 0, 0, 0, 0, 0)
}

} // verus!
