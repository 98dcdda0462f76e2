//! The resident memory of the running process, as the operating system
//! reports it.

use vstd::prelude::*;

verus! {

/// `sysinfo::System`, the snapshot of the machine that the process table is
/// read into. Nothing is known of what it holds.
#[verifier::external_type_specification]
#[verifier::external_body]
pub struct ExSystem(sysinfo::System);

/// `sysinfo::Pid`, a process identifier.
#[verifier::external_type_specification]
#[verifier::external_body]
pub struct ExPid(sysinfo::Pid);

/// `sysinfo::Process`, one entry of the process table.
#[verifier::external_type_specification]
#[verifier::external_body]
pub struct ExProcess(sysinfo::Process);

/// `sysinfo::get_current_pid`: the identifier of this process, or an error
/// on a platform that sysinfo does not know. Nothing is claimed of the value.
pub assume_specification[ sysinfo::get_current_pid ]() -> (pid: Result<sysinfo::Pid, &'static str>)
;

/// `sysinfo::System::new`: a snapshot with nothing loaded.
pub assume_specification[ sysinfo::System::new ]() -> (system: sysinfo::System)
;

/// `sysinfo::System::process`: the entry of `pid` in the snapshot, if it has
/// one. Which processes a snapshot holds depends on the machine.
pub assume_specification<'a>[ sysinfo::System::process ](
    system: &'a sysinfo::System,
    pid: sysinfo::Pid,
) -> (process: Option<&'a sysinfo::Process>)
;

/// `sysinfo::Process::memory`: the resident set size in bytes that the
/// snapshot recorded. Nothing is claimed of the value.
pub assume_specification[ sysinfo::Process::memory ](process: &sysinfo::Process) -> (bytes: u64)
;

/// `sysinfo::System::refresh_processes` over all processes, dropping the
/// dead ones: reloads the process table of the snapshot. Nothing is claimed
/// of the snapshot afterwards.
#[verifier::external_body]
fn refresh_all_processes(system: &mut sysinfo::System) {
    system.refresh_processes(sysinfo::ProcessesToUpdate::All, true);
}

/// The resident memory of this process in bytes, or `None` where the
/// operating system does not tell.
///
/// The value is a sample of the machine's state: two calls may differ, and
/// no contract can say which number comes back.
pub fn get_memory() -> (bytes: Option<u64>) {
    match sysinfo::get_current_pid() {
        Ok(pid) => {
            let mut system = sysinfo::System::new();
            refresh_all_processes(&mut system);
            match system.process(pid) {
                Some(process) => Some(process.memory()),
                None => None,
            }
        },
        Err(_) => None,
    }
}

} // verus!
