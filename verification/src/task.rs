use vstd::prelude::*;
use vstd::string::{StrSliceExecFns, StringExecFns};

use crate::error::SpecResult;

verus! {

/// The workflow operations a task can stand for.
#[derive(Clone, Copy, Debug, PartialEq, Eq, Structural)]
pub enum OperationType {
    Setup,
    Update,
    Port,
    Backup,
    Clean,
    UnInstall,
    Other,
}

impl OperationType {
    pub open spec fn spec_label(&self) -> Seq<char> {
        match self {
            OperationType::Setup => "setup"@,
            OperationType::Update => "update"@,
            OperationType::Port => "port"@,
            OperationType::Backup => "backup"@,
            OperationType::Clean => "clean"@,
            OperationType::UnInstall => "uninstall"@,
            OperationType::Other => "other"@,
        }
    }

    pub fn label(&self) -> (r: &'static str)
        ensures
            r@ == self.spec_label(),
    {
        match self {
            OperationType::Setup => "setup",
            OperationType::Update => "update",
            OperationType::Port => "port",
            OperationType::Backup => "backup",
            OperationType::Clean => "clean",
            OperationType::UnInstall => "uninstall",
            OperationType::Other => "other",
        }
    }
}

/// The text a task emits when executed; emitting it is the caller's affair.
pub trait Task {
    fn exec(&self) -> SpecResult<String>;
}

/// A task that echoes a command text.
#[derive(Debug)]
pub struct EchoTask {
    cmd: String,
}

/// The text one echo task emits.
pub open spec fn spec_echo_output(cmd: Seq<char>) -> Seq<char> {
    "echo task:\n"@ + cmd + "\n"@
}

impl EchoTask {
    pub closed spec fn spec_cmd(&self) -> Seq<char> {
        self.cmd@
    }

    pub fn new(cmd: &str) -> (r: Self)
        ensures
            r.spec_cmd() == cmd@,
    {
        EchoTask { cmd: String::from_str(cmd) }
    }

    pub fn exec_text(&self) -> (r: String)
        ensures
            r@ == spec_echo_output(self.spec_cmd()),
    {
        let mut out = String::from_str("echo task:\n");
        out.append(self.cmd.as_str());
        out.append("\n");
        out
    }

    pub fn duplicate(&self) -> (r: Self)
        ensures
            r == *self,
    {
        let r = EchoTask { cmd: self.cmd.clone() };
        proof {
            assert(r == *self);
        }
        r
    }
}

impl Task for EchoTask {
    fn exec(&self) -> SpecResult<String> {
        Ok(self.exec_text())
    }
}

/// The single kind of sub-task a combined task holds.
pub type TaskHandle = EchoTask;

/// The text a run of sub-tasks emits, in order.
pub open spec fn spec_combined_output(subs: Seq<EchoTask>) -> Seq<char>
    decreases subs.len(),
{
    if subs.len() == 0 {
        Seq::empty()
    } else {
        spec_combined_output(subs.drop_last()) + spec_echo_output(subs.last().spec_cmd())
    }
}

/// A named task made of sub-tasks run in order.
#[derive(Debug)]
pub struct CombinedTask {
    name: String,
    subs: Vec<TaskHandle>,
}

impl CombinedTask {
    pub closed spec fn spec_name(&self) -> Seq<char> {
        self.name@
    }

    pub closed spec fn spec_subs(&self) -> Seq<EchoTask> {
        self.subs@
    }

    pub fn new(name: &str) -> (r: Self)
        ensures
            r.spec_name() == name@,
            r.spec_subs().len() == 0,
    {
        CombinedTask { name: String::from_str(name), subs: Vec::new() }
    }

    pub fn add_sub(&mut self, sub: TaskHandle)
        ensures
            final(self).spec_name() == old(self).spec_name(),
            final(self).spec_subs() == old(self).spec_subs().push(sub),
    {
        self.subs.push(sub);
    }

    pub fn name(&self) -> (r: &str)
        ensures
            r@ == self.spec_name(),
    {
        self.name.as_str()
    }

    pub fn exec_text(&self) -> (r: String)
        ensures
            r@ == spec_combined_output(self.spec_subs()),
    {
        let n = self.subs.len();
        let mut out = String::new();
        let mut i: usize = 0;
        while i < n
            invariant
                0 <= i <= n,
                n == self.subs@.len(),
                out@ == spec_combined_output(self.subs@.take(i as int)),
            decreases n - i,
        {
            let piece = self.subs[i].exec_text();
            out.append(piece.as_str());
            proof {
                assert(self.subs@.take(i + 1).drop_last() =~= self.subs@.take(i as int));
                assert(self.subs@.take(i + 1).last() == self.subs@[i as int]);
            }
            i += 1;
        }
        proof {
            assert(self.subs@.take(n as int) =~= self.subs@);
        }
        out
    }
}

impl Task for CombinedTask {
    fn exec(&self) -> SpecResult<String> {
        Ok(self.exec_text())
    }
}

/// Builders that make the setup task for one target node.
pub trait NodeSetupTaskBuilder {
    fn make_setup_task(&self, node: &crate::module::TargetNode) -> SpecResult<CombinedTask>;
}

/// Builders that make the update task of a record.
pub trait UpdateTaskMaker {
    fn make_update_task(&self) -> SpecResult<CombinedTask>;
}

} // verus!
