use vstd::prelude::*;

use crate::conn_alive_status::SubjectAliveStatus;
use crate::node_pool::NodePool;
use crate::text::{contains, contains_text, parse_bounded, parse_unsigned, trim, trimmed};

verus! {

/// The file read that a liveness probe is waiting on.
pub enum AliveStage {
    ReadPid,
    CheckPid,
    ReadAddr,
    ReadPort { addr: String },
}

/// A liveness probe either has its answer or asks for one more remote
/// command, whose output goes to `stage`.
pub enum AliveQuery {
    Answer(SubjectAliveStatus),
    Ask { command: String, stage: AliveStage },
}

pub open spec fn is_dead_answer(q: AliveQuery) -> bool {
    q matches AliveQuery::Answer(a) && a.is_dead()
}

pub open spec fn asks(q: AliveQuery, command: Seq<char>, stage: AliveStage) -> bool {
    q matches AliveQuery::Ask { command: c, stage: s } && c@ == command && s == stage
}

fn dead() -> (r: AliveQuery)
    ensures
        is_dead_answer(r),
{
    AliveQuery::Answer(SubjectAliveStatus::new())
}

impl AliveStage {
    /// Takes in what the command of this stage printed. A process id that is
    /// not a number, a process that does not answer, or a bind port that is
    /// not a 16-bit number makes the node not alive.
    pub fn next(self, output: String) -> (r: AliveQuery)
        ensures
            match self {
                AliveStage::ReadPid => if parse_unsigned(trimmed(output@), u64::MAX as nat) is Some {
                    asks(
                        r,
                        "kill -0 "@ + trimmed(output@) + " && echo runs"@,
                        AliveStage::CheckPid,
                    )
                } else {
                    is_dead_answer(r)
                },
                AliveStage::CheckPid => if contains_text(output@, "runs"@) {
                    asks(r, "cat /tmp/visao/bind_addr"@, AliveStage::ReadAddr)
                } else {
                    is_dead_answer(r)
                },
                AliveStage::ReadAddr => r matches AliveQuery::Ask {
                    command,
                    stage: AliveStage::ReadPort { addr },
                } && command@ == "cat /tmp/visao/bind_port"@ && addr@ == trimmed(output@),
                AliveStage::ReadPort { addr } => match parse_unsigned(trimmed(output@), 65535) {
                    Some(port) => r matches AliveQuery::Answer(a) && a.alive && a.bind_addr@
                        == addr@ && a.bind_port == port,
                    None => is_dead_answer(r),
                },
            },
    {
        match self {
            AliveStage::ReadPid => {
                let pid = trim(output.as_str());
                match parse_bounded(pid.as_str(), u64::MAX) {
                    Some(_) => {
                        let mut command = String::from_str("kill -0 ");
                        command.append(pid.as_str());
                        command.append(" && echo runs");
                        AliveQuery::Ask { command: command, stage: AliveStage::CheckPid }
                    },
                    None => dead(),
                }
            },
            AliveStage::CheckPid => {
                if contains(output.as_str(), "runs") {
                    AliveQuery::Ask {
                        command: String::from_str("cat /tmp/visao/bind_addr"),
                        stage: AliveStage::ReadAddr,
                    }
                } else {
                    dead()
                }
            },
            AliveStage::ReadAddr => AliveQuery::Ask {
                command: String::from_str("cat /tmp/visao/bind_port"),
                stage: AliveStage::ReadPort { addr: trim(output.as_str()) },
            },
            AliveStage::ReadPort { addr } => {
                let port = trim(output.as_str());
                match parse_bounded(port.as_str(), 65535) {
                    Some(p) => AliveQuery::Answer(
                        SubjectAliveStatus { alive: true, bind_addr: addr, bind_port: p as u16 },
                    ),
                    None => dead(),
                }
            },
        }
    }
}

impl<S> NodePool<S> {
    /// Starts a liveness probe of `name`. A node without a session is not
    /// alive, and that is the answer at once.
    pub fn is_alive(&self, name: String) -> (r: AliveQuery)
        requires
            self.wf(),
        ensures
            !self@.instances.contains_key(name@) ==> is_dead_answer(r),
            self@.instances.contains_key(name@) ==> asks(
                r,
                "cat /tmp/visao/pid"@,
                AliveStage::ReadPid,
            ),
    {
        if self.instances.contains_key(&name) {
            AliveQuery::Ask {
                command: String::from_str("cat /tmp/visao/pid"),
                stage: AliveStage::ReadPid,
            }
        } else {
            dead()
        }
    }
}

} // verus!
