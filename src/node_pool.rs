use vstd::prelude::*;

use crate::conn_status::{fresh_status, ConnStatus, ConnStatusView, SubjectStatus};
use crate::subject::DeploySubject;
use crate::results::{AddResult, ConnectResult, DisconnectResult, RemoveResult};
use crate::subject::NodeParameters;
use crate::table::Table;

verus! {

/// A registered node: its address, and its own parameters, which take
/// precedence over the pool's defaults.
pub struct Node {
    pub fqdn: String,
    pub str_params: Table<String>,
}

/// The live session to a node, and the status kept while it lasts.
pub struct Instance<S> {
    pub session: S,
    pub conn_status: ConnStatus,
}

/// The registry of nodes and of their sessions. `S` is the session handle:
/// a pool owns at most one per node, and drops it when the node is
/// disconnected, removed or connected anew.
pub struct NodePool<S> {
    pub nodes: Table<Node>,
    pub instances: Table<Instance<S>>,
    pub str_params: Table<String>,
}

pub struct PoolView<S> {
    pub nodes: Map<Seq<char>, Node>,
    pub instances: Map<Seq<char>, Instance<S>>,
    pub defaults: Map<Seq<char>, String>,
}

/// A parameter's value: the node's own, else the pool's default, else empty.
pub open spec fn resolve(
    own: Map<Seq<char>, String>,
    defaults: Map<Seq<char>, String>,
    key: Seq<char>,
) -> Seq<char> {
    if own.contains_key(key) {
        own[key]@
    } else if defaults.contains_key(key) {
        defaults[key]@
    } else {
        Seq::empty()
    }
}

/// The status of a session that has just been opened.
pub open spec fn opened_status(platform: Seq<char>) -> ConnStatusView {
    ConnStatusView {
        connected: true,
        platform: platform,
        subjects: Map::total(|s| fresh_status()),
    }
}

impl<S> PoolView<S> {
    /// Every session belongs to a registered node.
    pub open spec fn sessions_registered(self) -> bool {
        forall|k: Seq<char>| #[trigger] self.instances.contains_key(k) ==> self.nodes.contains_key(k)
    }

    pub open spec fn param(self, node: Node, p: NodeParameters) -> Seq<char> {
        resolve(node.str_params@, self.defaults, p.key_spec())
    }

    pub open spec fn with_nodes(self, nodes: Map<Seq<char>, Node>) -> PoolView<S> {
        PoolView { nodes: nodes, instances: self.instances, defaults: self.defaults }
    }

    pub open spec fn with_instances(self, instances: Map<Seq<char>, Instance<S>>) -> PoolView<S> {
        PoolView { nodes: self.nodes, instances: instances, defaults: self.defaults }
    }

    pub open spec fn add_spec(self, name: Seq<char>, node: Node) -> (PoolView<S>, AddResult) {
        if self.nodes.contains_key(name) {
            (self, AddResult::NodeAlreadyExists)
        } else {
            (self.with_nodes(self.nodes.insert(name, node)), AddResult::Success)
        }
    }

    pub open spec fn remove_spec(self, name: Seq<char>) -> (PoolView<S>, RemoveResult) {
        if self.nodes.contains_key(name) {
            (
                PoolView {
                    nodes: self.nodes.remove(name),
                    instances: self.instances.remove(name),
                    defaults: self.defaults,
                },
                RemoveResult::Success,
            )
        } else {
            (self, RemoveResult::NodeNotFound)
        }
    }

    pub open spec fn disconnect_spec(self, name: Seq<char>) -> (PoolView<S>, DisconnectResult) {
        if self.nodes.contains_key(name) {
            (self.with_instances(self.instances.remove(name)), DisconnectResult::Success)
        } else {
            (self, DisconnectResult::NodeNotFound)
        }
    }

    /// The pool once a connection to `name` has been asked for: any session
    /// it had is gone.
    pub open spec fn connect_begun(self, name: Seq<char>) -> PoolView<S> {
        if self.nodes.contains_key(name) {
            self.with_instances(self.instances.remove(name))
        } else {
            self
        }
    }

    /// `next` is this pool with `status` recorded for `subject` in the
    /// session to `name`, and nothing else changed.
    pub open spec fn stored(
        self,
        next: PoolView<S>,
        name: Seq<char>,
        subject: DeploySubject,
        status: SubjectStatus,
    ) -> bool {
        &&& next.nodes == self.nodes
        &&& next.defaults == self.defaults
        &&& next.instances.contains_key(name)
        &&& next.instances[name].session == self.instances[name].session
        &&& next.instances[name].conn_status@ == (ConnStatusView {
            connected: self.instances[name].conn_status@.connected,
            platform: self.instances[name].conn_status@.platform,
            subjects: self.instances[name].conn_status@.subjects.insert(subject, status),
        })
        &&& next.instances.remove(name) == self.instances.remove(name)
    }

    /// `next` is this pool with a newly opened `session` to `name`.
    pub open spec fn attached(
        self,
        next: PoolView<S>,
        name: Seq<char>,
        session: S,
        platform: Seq<char>,
    ) -> bool {
        &&& next.nodes == self.nodes
        &&& next.defaults == self.defaults
        &&& next.instances.contains_key(name)
        &&& next.instances[name].session == session
        &&& next.instances[name].conn_status@ == opened_status(platform)
        &&& next.instances.remove(name) == self.instances.remove(name)
    }
}

/// What the session layer needs to open a session to a node.
pub struct ConnectRequest {
    pub name: String,
    pub address: String,
    pub username: String,
    pub password: String,
}

/// How opening a session ended: refused credentials, or a session and the
/// platform string it reported.
pub enum Handshake<S> {
    Rejected,
    Accepted { session: S, platform: String },
}

impl<S> View for NodePool<S> {
    type V = PoolView<S>;

    open spec fn view(&self) -> PoolView<S> {
        PoolView { nodes: self.nodes@, instances: self.instances@, defaults: self.str_params@ }
    }
}

impl<S> NodePool<S> {
    pub open spec fn wf(&self) -> bool {
        &&& self.nodes.wf()
        &&& self.instances.wf()
        &&& self.str_params.wf()
        &&& forall|k: Seq<char>|
            (#[trigger] self.nodes@.contains_key(k)) ==> self.nodes@[k].str_params.wf()
        &&& forall|k: Seq<char>|
            (#[trigger] self.instances@.contains_key(k)) ==> self.nodes@.contains_key(k)
                && self.instances@[k].conn_status.wf()
    }

    pub fn new() -> (r: NodePool<S>)
        ensures
            r.wf(),
            r@.nodes == Map::<Seq<char>, Node>::empty(),
            r@.instances == Map::<Seq<char>, Instance<S>>::empty(),
            r@.defaults == Map::<Seq<char>, String>::empty(),
    {
        NodePool { nodes: Table::new(), instances: Table::new(), str_params: Table::new() }
    }

    /// Sets a pool-wide default parameter.
    pub fn set_param(&mut self, key: String, value: String)
        requires
            old(self).wf(),
        ensures
            final(self).wf(),
            final(self)@ == (PoolView {
                nodes: old(self)@.nodes,
                instances: old(self)@.instances,
                defaults: old(self)@.defaults.insert(key@, value),
            }),
    {
        self.str_params.insert(key, value);
    }

    /// Resolves `param` for `node`: its own value, else the pool's default,
    /// else empty.
    pub fn get_node_param(&self, node: &Node, param: NodeParameters) -> (r: String)
        requires
            self.wf(),
            node.str_params.wf(),
        ensures
            r@ == self@.param(*node, param),
    {
        let key = param.key();
        match node.str_params.get(&key) {
            Some(v) => v.clone(),
            None => match self.str_params.get(&key) {
                Some(v) => v.clone(),
                None => String::new(),
            },
        }
    }

    /// Registers a node under `name`, unless one is registered there already.
    pub fn add(&mut self, name: String, fqdn: String, node_params: Table<String>) -> (r: AddResult)
        requires
            old(self).wf(),
            node_params.wf(),
        ensures
            final(self).wf(),
            (final(self)@, r) == old(self)@.add_spec(
                name@,
                Node { fqdn: fqdn, str_params: node_params },
            ),
    {
        if self.nodes.contains_key(&name) {
            return AddResult::NodeAlreadyExists;
        }
        self.nodes.insert(name, Node { fqdn: fqdn, str_params: node_params });
        AddResult::Success
    }

    /// The status of the session to `name`; a disconnected status when there
    /// is none.
    pub fn is_connected(&self, name: String) -> (r: ConnStatus)
        requires
            self.wf(),
        ensures
            r.wf(),
            r@ == (if self@.instances.contains_key(name@) {
                self@.instances[name@].conn_status@
            } else {
                ConnStatusView {
                    connected: false,
                    platform: Seq::empty(),
                    subjects: Map::total(|s| fresh_status()),
                }
            }),
    {
        match self.instances.get(&name) {
            Some(inst) => inst.conn_status.snapshot(),
            None => ConnStatus::new(false),
        }
    }

    /// Starts connecting to `name`: drops the session it has, if any, and
    /// says where and as whom to open the new one.
    pub fn connect(&mut self, name: String) -> (r: Result<ConnectRequest, ConnectResult>)
        requires
            old(self).wf(),
        ensures
            final(self).wf(),
            final(self)@ == old(self)@.connect_begun(name@),
            match r {
                Ok(req) => {
                    &&& old(self)@.nodes.contains_key(name@)
                    &&& req.name@ == name@
                    &&& req.address@ == old(self)@.nodes[name@].fqdn@
                    &&& req.username@ == old(self)@.param(
                        old(self)@.nodes[name@],
                        NodeParameters::Username,
                    )
                    &&& req.password@ == old(self)@.param(
                        old(self)@.nodes[name@],
                        NodeParameters::Password,
                    )
                },
                Err(e) => e == ConnectResult::NodeNotFound && !old(self)@.nodes.contains_key(name@),
            },
    {
        let node = match self.nodes.get(&name) {
            Some(node) => node,
            None => return Err(ConnectResult::NodeNotFound),
        };
        let address = node.fqdn.clone();
        let username = self.get_node_param(node, NodeParameters::Username);
        let password = self.get_node_param(node, NodeParameters::Password);
        let _ = self.instances.remove(&name);
        Ok(ConnectRequest { name: name, address: address, username: username, password: password })
    }

    /// Ends connecting to `name`: keeps the session if it was accepted.
    pub fn finish_connect(&mut self, name: String, handshake: Handshake<S>) -> (r: ConnectResult)
        requires
            old(self).wf(),
        ensures
            final(self).wf(),
            !old(self)@.nodes.contains_key(name@) ==> r == ConnectResult::NodeNotFound
                && final(self)@ == old(self)@,
            old(self)@.nodes.contains_key(name@) ==> match handshake {
                Handshake::Rejected => r == ConnectResult::NotAuthenticated && final(self)@
                    == old(self)@,
                Handshake::Accepted { session, platform } => r == ConnectResult::Success
                    && old(self)@.attached(final(self)@, name@, session, platform@),
            },
    {
        if !self.nodes.contains_key(&name) {
            return ConnectResult::NodeNotFound;
        }
        match handshake {
            Handshake::Rejected => ConnectResult::NotAuthenticated,
            Handshake::Accepted { session, platform } => {
                let mut status = ConnStatus::new(true);
                status.platform = platform;
                let ghost pre = self@;
                let ghost k = name@;
                self.instances.insert(name, Instance { session: session, conn_status: status });
                assert(self@.instances.remove(k) =~= pre.instances.remove(k));
                ConnectResult::Success
            },
        }
    }

    /// Records `status` for `subject` in the session to `name`.
    pub(crate) fn set_state(&mut self, name: &String, subject: DeploySubject, status: SubjectStatus)
        requires
            old(self).wf(),
            old(self)@.instances.contains_key(name@),
        ensures
            final(self).wf(),
            old(self)@.stored(final(self)@, name@, subject, status),
    {
        let ghost pre = self@;
        match self.instances.remove(name) {
            Some(inst) => {
                let mut inst = inst;
                inst.conn_status.set_subject(subject, status);
                self.instances.insert(name.clone(), inst);
                assert(self@.instances.remove(name@) =~= pre.instances.remove(name@));
            },
            None => {},
        }
    }

    /// Drops the session to `name`, if it has one.
    pub fn disconnect(&mut self, name: String) -> (r: DisconnectResult)
        requires
            old(self).wf(),
        ensures
            final(self).wf(),
            (final(self)@, r) == old(self)@.disconnect_spec(name@),
    {
        if !self.nodes.contains_key(&name) {
            return DisconnectResult::NodeNotFound;
        }
        let _ = self.instances.remove(&name);
        DisconnectResult::Success
    }

    /// Unregisters `name` and drops its session, if it has one.
    pub fn remove(&mut self, name: String) -> (r: RemoveResult)
        requires
            old(self).wf(),
        ensures
            final(self).wf(),
            (final(self)@, r) == old(self)@.remove_spec(name@),
    {
        if !self.nodes.contains_key(&name) {
            return RemoveResult::NodeNotFound;
        }
        let _ = self.nodes.remove(&name);
        let _ = self.instances.remove(&name);
        RemoveResult::Success
    }
}

/// A name that was never registered is not found by `remove` or
/// `disconnect`, and leaves the pool unchanged; `connect`, `deploy`, `run`
/// and the steps that follow them say the same in their own contracts.
pub proof fn lemma_unknown_node_not_found<S>(p: PoolView<S>, name: Seq<char>)
    requires
        !p.nodes.contains_key(name),
    ensures
        p.remove_spec(name) == (p, RemoveResult::NodeNotFound),
        p.disconnect_spec(name) == (p, DisconnectResult::NodeNotFound),
        p.connect_begun(name) == p,
{
}

/// Adding a name a second time is refused and changes nothing: the node
/// registered first keeps its parameters.
pub proof fn lemma_add_twice<S>(p: PoolView<S>, name: Seq<char>, first: Node, second: Node)
    ensures
        ({
            let (once, _) = p.add_spec(name, first);
            let (twice, r) = once.add_spec(name, second);
            &&& r == AddResult::NodeAlreadyExists
            &&& twice == once
            &&& once.nodes[name] == if p.nodes.contains_key(name) {
                p.nodes[name]
            } else {
                first
            }
        }),
{
}

/// Once a node is removed, it has no session left, and connecting to it is
/// refused as not found.
pub proof fn lemma_remove_then_connect<S>(p: PoolView<S>, name: Seq<char>)
    requires
        p.sessions_registered(),
    ensures
        ({
            let (q, _) = p.remove_spec(name);
            &&& !q.nodes.contains_key(name)
            &&& !q.instances.contains_key(name)
            &&& q.connect_begun(name) == q
        }),
{
}

/// Connecting twice replaces the session: the first one is dropped before
/// the second is opened, and the pool then holds the second session with
/// the platform it reported, and otherwise what it held before.
pub proof fn lemma_connect_twice<S>(
    p: PoolView<S>,
    q: PoolView<S>,
    r: PoolView<S>,
    name: Seq<char>,
    first: S,
    first_platform: Seq<char>,
    second: S,
    second_platform: Seq<char>,
)
    requires
        p.nodes.contains_key(name),
        p.connect_begun(name).attached(q, name, first, first_platform),
        q.connect_begun(name).attached(r, name, second, second_platform),
    ensures
        !q.connect_begun(name).instances.contains_key(name),
        r.instances[name].session == second,
        r.instances[name].conn_status@ == opened_status(second_platform),
        r.instances.remove(name) == p.instances.remove(name),
        r.nodes == p.nodes,
        r.defaults == p.defaults,
{
    assert(q.instances.remove(name).remove(name) =~= q.instances.remove(name));
    assert(p.instances.remove(name).remove(name) =~= p.instances.remove(name));
}

} // verus!
