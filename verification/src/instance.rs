use crate::info::{InstanceInfo, InstanceInfoView, InstanceStatus};
use vstd::prelude::*;

verus! {

/// One managed instance as the registry sees it: its description, whether
/// a child process (with its standard input) has been attached to it, and
/// whether the user stopped it on purpose. The process handles themselves
/// are kept by the caller.
pub struct Instance {
    instance_info: InstanceInfo,
    has_process: bool,
    manually_stopped: bool,
}

/// Mathematical value of an [`Instance`].
pub struct InstanceView {
    pub info: InstanceInfoView,
    pub has_process: bool,
    pub manually_stopped: bool,
}

impl View for Instance {
    type V = InstanceView;

    closed spec fn view(&self) -> InstanceView {
        InstanceView {
            info: self.instance_info@,
            has_process: self.has_process,
            manually_stopped: self.manually_stopped,
        }
    }
}

/// A newly registered instance: no process, counted as stopped by hand.
pub open spec fn fresh_instance(info: InstanceInfoView) -> InstanceView {
    InstanceView { info: info, has_process: false, manually_stopped: true }
}

/// An instance is running when it has a process and that process still has
/// an id (`pid_present` is what the caller observed of the process).
pub open spec fn status_of(inst: InstanceView, pid_present: bool) -> InstanceStatus {
    if inst.has_process && pid_present {
        InstanceStatus::Running
    } else {
        InstanceStatus::Stopped
    }
}

/// The instance after a process was spawned for it.
pub open spec fn started(inst: InstanceView) -> InstanceView {
    InstanceView { has_process: true, manually_stopped: false, ..inst }
}

/// The instance marked as stopped on purpose.
pub open spec fn stopped_by_hand(inst: InstanceView) -> InstanceView {
    InstanceView { manually_stopped: true, ..inst }
}

/// A `Result` whose values are texts, by the views of those texts.
pub open spec fn unit_view(r: Result<(), String>) -> Result<(), Seq<char>> {
    match r {
        Ok(_) => Ok(()),
        Err(e) => Err(e@),
    }
}

pub open spec fn text_view(r: Result<String, String>) -> Result<Seq<char>, Seq<char>> {
    match r {
        Ok(s) => Ok(s@),
        Err(e) => Err(e@),
    }
}

/// The error given when an instance has no child process.
pub open spec fn no_process_error() -> Seq<char> {
    "Instance child process is not available"@
}

/// The line written to a process's standard input to run a command.
pub open spec fn command_line(command: Seq<char>) -> Seq<char> {
    command.push('\n')
}

pub fn not_available() -> (e: String)
    ensures
        e@ == no_process_error(),
{
    String::from_str("Instance child process is not available")
}

impl Instance {
    pub fn new(instance_info: InstanceInfo) -> (r: Self)
        ensures
            r@ == fresh_instance(instance_info@),
    {
        Instance { instance_info, has_process: false, manually_stopped: true }
    }

    pub fn instance_info(&self) -> (r: &InstanceInfo)
        ensures
            r@ == self@.info,
    {
        &self.instance_info
    }

    pub fn has_process(&self) -> (r: bool)
        ensures
            r == self@.has_process,
    {
        self.has_process
    }

    pub fn manually_stopped(&self) -> (r: bool)
        ensures
            r == self@.manually_stopped,
    {
        self.manually_stopped
    }

    pub fn set_info(&mut self, info: InstanceInfo)
        ensures
            final(self)@ == (InstanceView { info: info@, ..old(self)@ }),
    {
        self.instance_info = info;
    }

    pub fn mark_stopped_by_hand(&mut self)
        ensures
            final(self)@ == stopped_by_hand(old(self)@),
    {
        self.manually_stopped = true;
    }

    /// The status, given whether the attached process (if any) still has
    /// an id.
    pub fn status(&self, pid_present: bool) -> (s: InstanceStatus)
        ensures
            s == status_of(self@, pid_present),
    {
        if self.has_process && pid_present {
            InstanceStatus::Running
        } else {
            InstanceStatus::Stopped
        }
    }

    /// Records the outcome of spawning the instance's program: on success
    /// the process is attached and the instance no longer counts as stopped
    /// by hand; on failure nothing changes and the spawn error is returned.
    pub fn start(&mut self, spawned: Result<(), String>) -> (r: Result<(), String>)
        ensures
            spawned is Ok ==> final(self)@ == started(old(self)@),
            spawned is Err ==> final(self)@ == old(self)@,
            unit_view(r) == unit_view(spawned),
    {
        match spawned {
            Ok(()) => {
                self.has_process = true;
                self.manually_stopped = false;
                Ok(())
            },
            Err(e) => Err(e),
        }
    }

    /// The line to write to the process's standard input for `command`,
    /// or an error when no process is attached.
    pub fn execute(&self, command: &String) -> (r: Result<String, String>)
        ensures
            text_view(r) == (if self@.has_process {
                Ok(command_line(command@))
            } else {
                Err(no_process_error())
            }),
    {
        if self.has_process {
            let mut line = command.clone();
            line.append("\n");
            proof {
                reveal_strlit("\n");
                assert(line@ =~= command_line(command@));
            }
            Ok(line)
        } else {
            Err(not_available())
        }
    }

    /// Decides a hard stop: with a process attached the instance is marked
    /// as stopped by hand and the process is to be killed (`Ok`); without
    /// one nothing changes and an error is returned.
    pub fn halt(&mut self) -> (r: Result<(), String>)
        ensures
            old(self)@.has_process ==> final(self)@ == stopped_by_hand(old(self)@) && r is Ok,
            !old(self)@.has_process ==> final(self)@ == old(self)@ && unit_view(r) == Err::<(), Seq<char>>(no_process_error()),
    {
        if self.has_process {
            self.manually_stopped = true;
            Ok(())
        } else {
            Err(not_available())
        }
    }
}

/// The reply to a command after the write to standard input was tried.
pub open spec fn write_outcome(written: Result<(), Seq<char>>) -> Result<(), Seq<char>> {
    match written {
        Ok(_) => Ok(()),
        Err(e) => Err("Failed to write to stdin: "@ + e),
    }
}

/// The reply to a hard stop after the kill was tried.
pub open spec fn kill_outcome(killed: Result<(), Seq<char>>) -> Result<(), Seq<char>> {
    match killed {
        Ok(_) => Ok(()),
        Err(e) => Err("Failed to kill process: "@ + e),
    }
}

/// Turns the result of writing a command (the I/O error as text) into the
/// reply.
pub fn execute_outcome(written: Result<(), String>) -> (r: Result<(), String>)
    ensures
        unit_view(r) == write_outcome(unit_view(written)),
{
    match written {
        Ok(()) => Ok(()),
        Err(e) => {
            let mut m = String::from_str("Failed to write to stdin: ");
            m.append(e.as_str());
            Err(m)
        },
    }
}

/// Turns the result of killing a process (the I/O error as text) into the
/// reply.
pub fn halt_outcome(killed: Result<(), String>) -> (r: Result<(), String>)
    ensures
        unit_view(r) == kill_outcome(unit_view(killed)),
{
    match killed {
        Ok(()) => Ok(()),
        Err(e) => {
            let mut m = String::from_str("Failed to kill process: ");
            m.append(e.as_str());
            Err(m)
        },
    }
}

} // verus!
