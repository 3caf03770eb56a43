use vstd::prelude::*;

use crate::conn_status::SubjectStatus;
use crate::node_pool::{Node, NodePool};
use crate::results::RunResult;
use crate::subject::{DeploySubject, NodeParameters};
use crate::text::{contains, contains_quote, contains_text, has_quote, parse_bounded, parse_unsigned};

verus! {

/// The remote work that starts a subject on a node: a command that stops
/// the instance already running, then the commands of one shell session
/// that start the new one and report its process id.
pub struct RunPlan {
    pub name: String,
    pub subject: DeploySubject,
    pub status: SubjectStatus,
    pub stop_command: String,
    pub commands: Vec<String>,
}

/// The bind address used: the configured one, unless it is empty or holds a
/// quote, which would break out of the remote command.
pub open spec fn safe_bind_addr(addr: Seq<char>) -> Seq<char> {
    if addr.len() == 0 || has_quote(addr) {
        "127.0.0.1"@
    } else {
        addr
    }
}

/// The bind port used: the configured one, unless it is not a 16-bit port
/// number.
pub open spec fn safe_bind_port(port: Seq<char>) -> Seq<char> {
    if parse_unsigned(port, 65535) is Some {
        port
    } else {
        "5700"@
    }
}

pub open spec fn stop_command() -> Seq<char> {
    "/bin/bash -c 'test -f /tmp/visao/pid && test $(cat /tmp/visao/pid) -gt 0 && kill $(cat /tmp/visao/pid)'"@
}

/// The shell session that starts the deployed binary on `addr`:`port`,
/// records its process id and endpoint, waits, and prints `pid` only if the
/// process is still alive.
pub open spec fn start_commands(addr: Seq<char>, port: Seq<char>) -> Seq<Seq<char>> {
    seq![
        "/tmp/visao/bin/visao --server 'tcp://"@ + addr + ":"@ + port
            + "' < /dev/null > /dev/null 2> /dev/null &"@,
        "echo $! > /tmp/visao/pid"@,
        "echo "@ + addr + " > /tmp/visao/bind_addr"@,
        "echo "@ + port + " > /tmp/visao/bind_port"@,
        "sleep 4"@,
        "kill -0 \"$(cat /tmp/visao/pid)\" && echo pid \"$(cat /tmp/visao/pid)\""@,
    ]
}

fn start_commands_exec(addr: &String, port: &String) -> (r: Vec<String>)
    ensures
        r@.len() == 6,
        forall|i: int| 0 <= i < 6 ==> #[trigger] r@[i]@ == start_commands(addr@, port@)[i],
{
    let mut launch = String::from_str("/tmp/visao/bin/visao --server 'tcp://");
    launch.append(addr.as_str());
    launch.append(":");
    launch.append(port.as_str());
    launch.append("' < /dev/null > /dev/null 2> /dev/null &");
    let mut bind_addr = String::from_str("echo ");
    bind_addr.append(addr.as_str());
    bind_addr.append(" > /tmp/visao/bind_addr");
    let mut bind_port = String::from_str("echo ");
    bind_port.append(port.as_str());
    bind_port.append(" > /tmp/visao/bind_port");
    let mut r: Vec<String> = Vec::new();
    r.push(launch);
    r.push(String::from_str("echo $! > /tmp/visao/pid"));
    r.push(bind_addr);
    r.push(bind_port);
    r.push(String::from_str("sleep 4"));
    r.push(
        String::from_str(
            "kill -0 \"$(cat /tmp/visao/pid)\" && echo pid \"$(cat /tmp/visao/pid)\"",
        ),
    );
    r
}

impl<S> NodePool<S> {
    /// The bind address and port that `node` is started on, made safe to
    /// place in a remote command.
    pub fn infer_conn_params(&self, node: &Node) -> (r: (String, String))
        requires
            self.wf(),
            node.str_params.wf(),
        ensures
            r.0@ == safe_bind_addr(self@.param(*node, NodeParameters::BindAddr)),
            r.1@ == safe_bind_port(self@.param(*node, NodeParameters::BindPort)),
    {
        let mut bind_addr = self.get_node_param(node, NodeParameters::BindAddr);
        if contains_quote(bind_addr.as_str()) {
            bind_addr = String::new();
        }
        if bind_addr.as_str().unicode_len() == 0 {
            bind_addr = String::from_str("127.0.0.1");
        }
        let mut bind_port = self.get_node_param(node, NodeParameters::BindPort);
        if parse_bounded(bind_port.as_str(), 65535).is_none() {
            bind_port = String::from_str("5700");
        }
        (bind_addr, bind_port)
    }

    /// Starts running `subject` on `name`: checks that the node exists and
    /// is connected, marks the subject as not running, and gives the remote
    /// work to do.
    pub fn run(&self, name: String, subject: DeploySubject) -> (r: Result<RunPlan, RunResult>)
        requires
            self.wf(),
        ensures
            !self@.nodes.contains_key(name@) ==> r == Err::<RunPlan, RunResult>(
                RunResult::NodeNotFound,
            ),
            self@.nodes.contains_key(name@) && !self@.instances.contains_key(name@) ==> r
                == Err::<RunPlan, RunResult>(RunResult::NodeNotConnected),
            self@.instances.contains_key(name@) ==> match r {
                Ok(plan) => {
                    let node = self@.nodes[name@];
                    let addr = safe_bind_addr(self@.param(node, NodeParameters::BindAddr));
                    let port = safe_bind_port(self@.param(node, NodeParameters::BindPort));
                    let before = self@.instances[name@].conn_status@.subjects[subject];
                    &&& plan.name@ == name@
                    &&& plan.subject == subject
                    &&& plan.status == (SubjectStatus { running: false, ..before })
                    &&& plan.stop_command@ == stop_command()
                    &&& plan.commands@.len() == 6
                    &&& forall|i: int|
                        0 <= i < 6 ==> #[trigger] plan.commands@[i]@ == start_commands(
                            addr,
                            port,
                        )[i]
                },
                Err(_) => false,
            },
    {
        let node = match self.nodes.get(&name) {
            Some(node) => node,
            None => return Err(RunResult::NodeNotFound),
        };
        let inst = match self.instances.get(&name) {
            Some(inst) => inst,
            None => return Err(RunResult::NodeNotConnected),
        };
        let mut status = inst.conn_status.get_subject(subject);
        status.running = false;
        let (addr, port) = self.infer_conn_params(node);
        let commands = start_commands_exec(&addr, &port);
        Ok(
            RunPlan {
                name: name,
                subject: subject,
                status: status,
                stop_command: String::from_str(
                    "/bin/bash -c 'test -f /tmp/visao/pid && test $(cat /tmp/visao/pid) -gt 0 && kill $(cat /tmp/visao/pid)'",
                ),
                commands: commands,
            },
        )
    }

    /// Takes in what the start commands of `plan` printed, and records
    /// whether the subject now runs.
    pub fn run_finish(&mut self, plan: RunPlan, output: String) -> (r: RunResult)
        requires
            old(self).wf(),
        ensures
            final(self).wf(),
            !old(self)@.instances.contains_key(plan.name@) ==> final(self)@ == old(self)@ && r
                == if old(self)@.nodes.contains_key(plan.name@) {
                RunResult::NodeNotConnected
            } else {
                RunResult::NodeNotFound
            },
            old(self)@.instances.contains_key(plan.name@) ==> {
                let started = contains_text(output@, "pid"@);
                &&& r == if started {
                    RunResult::Success
                } else {
                    RunResult::RunFailed
                }
                &&& old(self)@.stored(
                    final(self)@,
                    plan.name@,
                    plan.subject,
                    SubjectStatus { running: started, ..plan.status },
                )
            },
    {
        if !self.instances.contains_key(&plan.name) {
            if self.nodes.contains_key(&plan.name) {
                return RunResult::NodeNotConnected;
            } else {
                return RunResult::NodeNotFound;
            }
        }
        let started = contains(output.as_str(), "pid");
        let mut status = plan.status;
        status.running = started;
        self.set_state(&plan.name, plan.subject, status);
        if started {
            RunResult::Success
        } else {
            RunResult::RunFailed
        }
    }
}

} // verus!
