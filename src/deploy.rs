use vstd::prelude::*;

use crate::conn_status::SubjectStatus;
use crate::node_pool::NodePool;
use crate::results::DeployResult;
use crate::subject::{DeploySubject, NodeParameters};

verus! {

/// The stage a deployment is about to perform.
#[derive(Clone, Copy, Debug, PartialEq, Eq, Structural)]
pub enum DeployStage {
    Copy,
    Extract,
    Test,
}

/// A deployment in progress on one node, with the status reached so far.
pub struct Deployment {
    pub name: String,
    pub subject: DeploySubject,
    pub stage: DeployStage,
    pub status: SubjectStatus,
    pub archive: String,
}

/// The remote work that the current stage asks for.
pub enum DeployAction {
    Upload { local_path: String, remote_path: String },
    Exec { command: String },
}

/// How the remote work of a stage went: whether the upload succeeded, or
/// what the command printed.
pub enum DeployEvent {
    Uploaded(bool),
    Output(String),
}

pub enum DeployProgress {
    Next(Deployment),
    Done(DeployResult),
}

/// A stage succeeded when its upload did, or when its command printed
/// something.
pub open spec fn event_ok(e: DeployEvent) -> bool {
    match e {
        DeployEvent::Uploaded(b) => b,
        DeployEvent::Output(s) => s@.len() > 0,
    }
}

/// `st` with the four deploy flags set as given and `running` kept.
pub open spec fn with_flags(
    st: SubjectStatus,
    copied: bool,
    extracted: bool,
    tested: bool,
    deployed: bool,
) -> SubjectStatus {
    SubjectStatus {
        deploy_archive_copied: copied,
        deploy_archive_extracted: extracted,
        deploy_archive_tested: tested,
        deployed: deployed,
        running: st.running,
    }
}

/// What one stage does with the status: the stage that follows, if any, the
/// status reached, and the result when the pipeline ends there.
pub open spec fn deploy_transition(stage: DeployStage, st: SubjectStatus, ok: bool) -> (
    Option<DeployStage>,
    SubjectStatus,
    DeployResult,
) {
    match stage {
        DeployStage::Copy => if ok {
            (Some(DeployStage::Extract), with_flags(st, true, false, false, false), DeployResult::Success)
        } else {
            (None, st, DeployResult::DeployCopyFailed)
        },
        DeployStage::Extract => if ok {
            (Some(DeployStage::Test), with_flags(st, true, true, false, false), DeployResult::Success)
        } else {
            (None, st, DeployResult::DeployExtractionFailed)
        },
        DeployStage::Test => if ok {
            (None, with_flags(st, true, true, true, true), DeployResult::Success)
        } else {
            (None, st, DeployResult::DeployTestFailed)
        },
    }
}

pub open spec fn remote_archive() -> Seq<char> {
    "/tmp/visao-archive.tar.xz"@
}

pub open spec fn extract_command() -> Seq<char> {
    "tar xvf /tmp/visao-archive.tar.xz -C /tmp/visao > /dev/null 2> /dev/null && echo ok"@
}

pub open spec fn test_command() -> Seq<char> {
    "/tmp/visao/bin/visao --version"@
}

impl Deployment {
    /// The status flags match the stage: each earlier stage done, none after.
    pub open spec fn wf(&self) -> bool {
        self.status == match self.stage {
            DeployStage::Copy => with_flags(self.status, false, false, false, false),
            DeployStage::Extract => with_flags(self.status, true, false, false, false),
            DeployStage::Test => with_flags(self.status, true, true, false, false),
        }
    }

    /// The remote work of the current stage.
    pub fn action(&self) -> (r: DeployAction)
        ensures
            match self.stage {
                DeployStage::Copy => r matches DeployAction::Upload { local_path, remote_path }
                    && local_path@ == self.archive@ && remote_path@ == remote_archive(),
                DeployStage::Extract => r matches DeployAction::Exec { command } && command@
                    == extract_command(),
                DeployStage::Test => r matches DeployAction::Exec { command } && command@
                    == test_command(),
            },
    {
        match self.stage {
            DeployStage::Copy => DeployAction::Upload {
                local_path: self.archive.clone(),
                remote_path: String::from_str("/tmp/visao-archive.tar.xz"),
            },
            DeployStage::Extract => DeployAction::Exec {
                command: String::from_str(
                    "tar xvf /tmp/visao-archive.tar.xz -C /tmp/visao > /dev/null 2> /dev/null && echo ok",
                ),
            },
            DeployStage::Test => DeployAction::Exec {
                command: String::from_str("/tmp/visao/bin/visao --version"),
            },
        }
    }
}

fn succeeded(event: &DeployEvent) -> (r: bool)
    ensures
        r == event_ok(*event),
{
    match event {
        DeployEvent::Uploaded(b) => *b,
        DeployEvent::Output(s) => s.as_str().unicode_len() > 0,
    }
}

impl<S> NodePool<S> {
    /// Starts deploying `subject` to `name`: checks that the subject may be
    /// deployed, that the node exists and that it is connected, then clears
    /// the deploy flags and asks for the archive to be copied.
    pub fn deploy(&self, name: String, subject: DeploySubject) -> (r: DeployProgress)
        requires
            self.wf(),
        ensures
            subject == DeploySubject::Delta ==> r == DeployProgress::Done(
                DeployResult::InvalidArgument,
            ),
            subject != DeploySubject::Delta && !self@.nodes.contains_key(name@) ==> r
                == DeployProgress::Done(DeployResult::NodeNotFound),
            subject != DeploySubject::Delta && self@.nodes.contains_key(name@)
                && !self@.instances.contains_key(name@) ==> r == DeployProgress::Done(
                DeployResult::NodeNotConnected,
            ),
            subject != DeploySubject::Delta && self@.instances.contains_key(name@) ==> match r {
                DeployProgress::Next(d) => {
                    &&& d.wf()
                    &&& d.name@ == name@
                    &&& d.subject == subject
                    &&& d.stage == DeployStage::Copy
                    &&& d.status == with_flags(
                        self@.instances[name@].conn_status@.subjects[subject],
                        false,
                        false,
                        false,
                        false,
                    )
                    &&& d.archive@ == self@.param(self@.nodes[name@], NodeParameters::Distr)
                },
                DeployProgress::Done(_) => false,
            },
    {
        if subject == DeploySubject::Delta {
            return DeployProgress::Done(DeployResult::InvalidArgument);
        }
        let node = match self.nodes.get(&name) {
            Some(node) => node,
            None => return DeployProgress::Done(DeployResult::NodeNotFound),
        };
        let inst = match self.instances.get(&name) {
            Some(inst) => inst,
            None => return DeployProgress::Done(DeployResult::NodeNotConnected),
        };
        let mut status = inst.conn_status.get_subject(subject);
        status.deployed = false;
        status.deploy_archive_copied = false;
        status.deploy_archive_extracted = false;
        status.deploy_archive_tested = false;
        let archive = self.get_node_param(node, NodeParameters::Distr);
        DeployProgress::Next(
            Deployment {
                name: name,
                subject: subject,
                stage: DeployStage::Copy,
                status: status,
                archive: archive,
            },
        )
    }

    /// Takes in how the current stage of `d` went. The deployment moves on
    /// to the next stage, or ends; when it ends, the status reached is
    /// recorded in the node's session.
    pub fn deploy_step(&mut self, d: Deployment, event: DeployEvent) -> (r: DeployProgress)
        requires
            old(self).wf(),
            d.wf(),
        ensures
            final(self).wf(),
            !old(self)@.instances.contains_key(d.name@) ==> final(self)@ == old(self)@ && r
                == DeployProgress::Done(
                if old(self)@.nodes.contains_key(d.name@) {
                    DeployResult::NodeNotConnected
                } else {
                    DeployResult::NodeNotFound
                },
            ),
            old(self)@.instances.contains_key(d.name@) ==> {
                let (next, st, res) = deploy_transition(d.stage, d.status, event_ok(event));
                match next {
                    Some(stage) => final(self)@ == old(self)@ && r == DeployProgress::Next(
                        Deployment {
                            name: d.name,
                            subject: d.subject,
                            stage: stage,
                            status: st,
                            archive: d.archive,
                        },
                    ),
                    None => r == DeployProgress::Done(res) && old(self)@.stored(
                        final(self)@,
                        d.name@,
                        d.subject,
                        st,
                    ),
                }
            },
    {
        if !self.instances.contains_key(&d.name) {
            if self.nodes.contains_key(&d.name) {
                return DeployProgress::Done(DeployResult::NodeNotConnected);
            } else {
                return DeployProgress::Done(DeployResult::NodeNotFound);
            }
        }
        let ok = succeeded(&event);
        let mut status = d.status;
        if !ok {
            self.set_state(&d.name, d.subject, status);
            return DeployProgress::Done(
                match d.stage {
                    DeployStage::Copy => DeployResult::DeployCopyFailed,
                    DeployStage::Extract => DeployResult::DeployExtractionFailed,
                    DeployStage::Test => DeployResult::DeployTestFailed,
                },
            );
        }
        match d.stage {
            DeployStage::Copy => {
                status.deploy_archive_copied = true;
                DeployProgress::Next(
                    Deployment {
                        name: d.name,
                        subject: d.subject,
                        stage: DeployStage::Extract,
                        status: status,
                        archive: d.archive,
                    },
                )
            },
            DeployStage::Extract => {
                status.deploy_archive_extracted = true;
                DeployProgress::Next(
                    Deployment {
                        name: d.name,
                        subject: d.subject,
                        stage: DeployStage::Test,
                        status: status,
                        archive: d.archive,
                    },
                )
            },
            DeployStage::Test => {
                status.deploy_archive_tested = true;
                status.deployed = true;
                self.set_state(&d.name, d.subject, status);
                DeployProgress::Done(DeployResult::Success)
            },
        }
    }
}

/// The deploy stages from a status whose deploy flags were cleared: a failed
/// copy leaves all four flags false, a failed extraction leaves only the
/// copy done, and three successful stages set all four flags and succeed.
pub proof fn lemma_deploy_stages(before: SubjectStatus)
    ensures
        ({
            let start = with_flags(before, false, false, false, false);
            let (copy_next, copied, _) = deploy_transition(DeployStage::Copy, start, true);
            let (extract_next, extracted, _) = deploy_transition(DeployStage::Extract, copied, true);
            &&& deploy_transition(DeployStage::Copy, start, false) == (
                None::<DeployStage>,
                with_flags(before, false, false, false, false),
                DeployResult::DeployCopyFailed,
            )
            &&& copy_next == Some(DeployStage::Extract)
            &&& deploy_transition(DeployStage::Extract, copied, false) == (
                None::<DeployStage>,
                with_flags(before, true, false, false, false),
                DeployResult::DeployExtractionFailed,
            )
            &&& extract_next == Some(DeployStage::Test)
            &&& deploy_transition(DeployStage::Test, extracted, true) == (
                None::<DeployStage>,
                with_flags(before, true, true, true, true),
                DeployResult::Success,
            )
        }),
{
}

} // verus!
