use vstd::prelude::*;

use crate::subject::DeploySubject;

verus! {

/// What a liveness probe found: whether the deployed process runs, and the
/// endpoint it bound.
#[derive(Clone, Debug)]
pub struct SubjectAliveStatus {
    pub alive: bool,
    pub bind_addr: String,
    pub bind_port: u16,
}

impl SubjectAliveStatus {
    /// Not alive, with an empty endpoint.
    pub open spec fn is_dead(&self) -> bool {
        !self.alive && self.bind_addr@ == Seq::<char>::empty() && self.bind_port == 0
    }

    pub fn new() -> (r: SubjectAliveStatus)
        ensures
            r.is_dead(),
    {
        SubjectAliveStatus { alive: false, bind_addr: String::new(), bind_port: 0 }
    }
}

/// Liveness per deploy subject.
#[derive(Debug)]
pub struct ConnAliveStatus {
    pub subjects: Vec<(DeploySubject, SubjectAliveStatus)>,
}

impl ConnAliveStatus {
    pub fn new() -> (r: ConnAliveStatus)
        ensures
            r.subjects@.len() == 0,
    {
        ConnAliveStatus { subjects: Vec::new() }
    }
}

} // verus!
