use vstd::prelude::*;

verus! {

#[derive(Clone, Copy, Debug, PartialEq, Eq, Structural)]
pub enum AddResult {
    Success,
    NodeAlreadyExists,
}

#[derive(Clone, Copy, Debug, PartialEq, Eq, Structural)]
pub enum ConnectResult {
    Success,
    NodeNotFound,
    NotAuthenticated,
}

#[derive(Clone, Copy, Debug, PartialEq, Eq, Structural)]
pub enum DisconnectResult {
    Success,
    NodeNotFound,
}

#[derive(Clone, Copy, Debug, PartialEq, Eq, Structural)]
pub enum RemoveResult {
    Success,
    NodeNotFound,
}

#[derive(Clone, Copy, Debug, PartialEq, Eq, Structural)]
pub enum DeployResult {
    Success,
    InvalidArgument,
    NodeNotFound,
    NodeNotConnected,
    DeployCopyFailed,
    DeployExtractionFailed,
    DeployTestFailed,
}

#[derive(Clone, Copy, Debug, PartialEq, Eq, Structural)]
pub enum RunResult {
    Success,
    NodeNotFound,
    NodeNotConnected,
    RunFailed,
}

} // verus!
