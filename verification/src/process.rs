//! The end of the agent's process: the whole of its process group is killed, so that nothing that
//! it started outlives it.

use vstd::prelude::*;

verus! {

/// The next thing to do to kill a process's group. `X` is an error of the operating system.
#[derive(Debug, PartialEq, Eq)]
pub enum GroupKill<X> {
    /// Look up the group of the process with this id.
    FindGroup(i32),
    /// Kill the group with this id.
    KillGroup(i32),
    /// Nothing: this is how it went.
    Done(Result<(), X>),
}

/// What came of a step.
pub enum GroupEvent<X> {
    /// The process is in this group.
    Found(i32),
    /// The group was killed.
    Killed,
    /// The operating system refused; whether because there is no such process or group is given.
    Failed { not_found: bool, error: X },
}

/// A process id as the operating system's calls take it: one too large wraps around.
pub open spec fn signed_pid(pid: u32) -> int {
    if pid < 0x8000_0000 {
        pid as int
    } else {
        pid - 0x1_0000_0000
    }
}

/// Begins to kill the group of the process with the given id. A process that is known to have
/// ended has none.
pub fn kill_child_process_group<X>(pid: Option<u32>) -> (kill: GroupKill<X>)
    ensures
        match pid {
            Some(pid) => kill matches GroupKill::FindGroup(id) && id == signed_pid(pid),
            None => kill == GroupKill::<X>::Done(Ok(())),
        },
        pid matches Some(pid) ==> (kill matches GroupKill::FindGroup(id) && id == (if pid
            < 0x8000_0000 {
            pid as int
        } else {
            pid - 0x1_0000_0000
        })),
{
    match pid {
        Some(pid) => {
            let id: i32 = pid as i32;
            assert(pid < 0x8000_0000u32 ==> id == pid) by (bit_vector)
                requires
                    id == pid as i32,
            ;
            assert(pid >= 0x8000_0000u32 ==> id == pid - 0x1_0000_0000) by (bit_vector)
                requires
                    id == pid as i32,
            ;
            GroupKill::FindGroup(id)
        },
        None => GroupKill::Done(Ok(())),
    }
}

impl<X> GroupKill<X> {
    /// Takes in what came of a step. That there is nothing left to kill is no failure. An event
    /// that the step at hand does not wait for changes nothing.
    pub fn on_event(self, event: GroupEvent<X>) -> (kill: Self)
        ensures
            match (self, event) {
                (GroupKill::FindGroup(_), GroupEvent::Found(group)) => kill
                    == GroupKill::<X>::KillGroup(group),
                (GroupKill::KillGroup(_), GroupEvent::Killed) => kill == GroupKill::<X>::Done(
                    Ok(()),
                ),
                (GroupKill::FindGroup(_), GroupEvent::Failed { not_found, error }) => kill
                    == GroupKill::<X>::Done(
                    if not_found {
                        Ok(())
                    } else {
                        Err(error)
                    },
                ),
                (GroupKill::KillGroup(_), GroupEvent::Failed { not_found, error }) => kill
                    == GroupKill::<X>::Done(
                    if not_found {
                        Ok(())
                    } else {
                        Err(error)
                    },
                ),
                _ => kill == self,
            },
    {
        match (self, event) {
            (GroupKill::FindGroup(_), GroupEvent::Found(group)) => GroupKill::KillGroup(group),
            (GroupKill::KillGroup(_), GroupEvent::Killed) => GroupKill::Done(Ok(())),
            (GroupKill::FindGroup(_), GroupEvent::Failed { not_found, error }) => GroupKill::Done(
                if not_found {
                    Ok(())
                } else {
                    Err(error)
                },
            ),
            (GroupKill::KillGroup(_), GroupEvent::Failed { not_found, error }) => GroupKill::Done(
                if not_found {
                    Ok(())
                } else {
                    Err(error)
                },
            ),
            (kill, _) => kill,
        }
    }
}

/// A process id that fits is taken as it is, and a larger one as the number that is 2^32 less; so
/// different processes are taken differently.
pub proof fn law_process_ids_are_kept(pid: u32, other: u32)
    ensures
        pid <= 0x7FFF_FFFF ==> signed_pid(pid) == pid,
        pid > 0x7FFF_FFFF ==> signed_pid(pid) == pid - 0x1_0000_0000,
        pid != other ==> signed_pid(pid) != signed_pid(other),
{
}

} // verus!
