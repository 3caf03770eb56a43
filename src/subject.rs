use vstd::prelude::*;

verus! {

/// What is deployed or run on a node. `Delta` is the orchestrator itself and
/// is never a valid deploy target.
#[derive(Clone, Copy, Debug, PartialEq, Eq, Structural, Hash)]
pub enum DeploySubject {
    Delta,
    Visao,
}

/// Well-known keys of a node's parameters.
#[derive(Clone, Copy, Debug, PartialEq, Eq, Structural)]
pub enum NodeParameters {
    Username,
    Password,
    Distr,
    BindAddr,
    BindPort,
}

impl NodeParameters {
    pub open spec fn key_spec(self) -> Seq<char> {
        match self {
            NodeParameters::Username => "username"@,
            NodeParameters::Password => "password"@,
            NodeParameters::Distr => "distr"@,
            NodeParameters::BindAddr => "bind_addr"@,
            NodeParameters::BindPort => "bind_port"@,
        }
    }

    /// The key under which the parameter is stored.
    pub fn key(self) -> (r: String)
        ensures
            r@ == self.key_spec(),
    {
        match self {
            NodeParameters::Username => String::from_str("username"),
            NodeParameters::Password => String::from_str("password"),
            NodeParameters::Distr => String::from_str("distr"),
            NodeParameters::BindAddr => String::from_str("bind_addr"),
            NodeParameters::BindPort => String::from_str("bind_port"),
        }
    }
}

} // verus!
