use delta_pool::alive::{AliveQuery, AliveStage};
use delta_pool::conn_alive_status::{ConnAliveStatus, SubjectAliveStatus};
use delta_pool::conn_status::{ConnStatus, SubjectStatus};
use delta_pool::deploy::{DeployAction, DeployEvent, DeployProgress, DeployStage, Deployment};
use delta_pool::node_pool::{Handshake, NodePool};
use delta_pool::results::{
    AddResult, ConnectResult, DeployResult, DisconnectResult, RemoveResult, RunResult,
};
use delta_pool::subject::{DeploySubject, NodeParameters};
use delta_pool::table::Table;

fn params(pairs: &[(&str, &str)]) -> Table<String> {
    let mut t = Table::new();
    for (k, v) in pairs {
        t.insert(k.to_string(), v.to_string());
    }
    t
}

fn pool_with(name: &str, pairs: &[(&str, &str)]) -> NodePool<u32> {
    let mut pool = NodePool::new();
    assert_eq!(
        pool.add(name.to_string(), "host:22".to_string(), params(pairs)),
        AddResult::Success
    );
    pool
}

fn connected(name: &str, pairs: &[(&str, &str)], session: u32) -> NodePool<u32> {
    let mut pool = pool_with(name, pairs);
    assert!(pool.connect(name.to_string()).is_ok());
    let h = Handshake::Accepted { session, platform: "Linux n1".to_string() };
    assert_eq!(pool.finish_connect(name.to_string(), h), ConnectResult::Success);
    pool
}

fn started(pool: &NodePool<u32>, name: &str) -> Deployment {
    match pool.deploy(name.to_string(), DeploySubject::Visao) {
        DeployProgress::Next(d) => d,
        DeployProgress::Done(r) => panic!("deploy did not start: {:?}", r),
    }
}

fn done(p: DeployProgress) -> DeployResult {
    match p {
        DeployProgress::Done(r) => r,
        DeployProgress::Next(_) => panic!("deployment not finished"),
    }
}

fn next(p: DeployProgress) -> Deployment {
    match p {
        DeployProgress::Next(d) => d,
        DeployProgress::Done(r) => panic!("deployment ended: {:?}", r),
    }
}

fn status_of(pool: &NodePool<u32>, name: &str) -> SubjectStatus {
    pool.is_connected(name.to_string()).get_subject(DeploySubject::Visao)
}

fn flags(s: SubjectStatus) -> (bool, bool, bool, bool) {
    (s.deploy_archive_copied, s.deploy_archive_extracted, s.deploy_archive_tested, s.deployed)
}

fn ask(q: AliveQuery) -> (String, AliveStage) {
    match q {
        AliveQuery::Ask { command, stage } => (command, stage),
        AliveQuery::Answer(_) => panic!("expected a command"),
    }
}

fn answer(q: AliveQuery) -> SubjectAliveStatus {
    match q {
        AliveQuery::Answer(a) => a,
        AliveQuery::Ask { command, .. } => panic!("unexpected command {}", command),
    }
}

#[test]
fn unknown_node_is_not_found_everywhere() {
    let mut pool: NodePool<u32> = NodePool::new();
    let n = || "ghost".to_string();
    assert!(matches!(pool.connect(n()), Err(ConnectResult::NodeNotFound)));
    assert_eq!(pool.finish_connect(n(), Handshake::Accepted { session: 1, platform: "x".to_string() }), ConnectResult::NodeNotFound);
    assert_eq!(pool.disconnect(n()), DisconnectResult::NodeNotFound);
    assert_eq!(pool.remove(n()), RemoveResult::NodeNotFound);
    assert!(matches!(pool.deploy(n(), DeploySubject::Visao), DeployProgress::Done(DeployResult::NodeNotFound)));
    assert!(matches!(pool.run(n(), DeploySubject::Visao), Err(RunResult::NodeNotFound)));
}

#[test]
fn add_twice_keeps_first_node() {
    let mut pool = pool_with("n1", &[("username", "first")]);
    let r = pool.add("n1".to_string(), "other:22".to_string(), params(&[("username", "second")]));
    assert_eq!(r, AddResult::NodeAlreadyExists);
    match pool.connect("n1".to_string()) {
        Ok(req) => {
            assert_eq!(req.address, "host:22");
            assert_eq!(req.username, "first");
        }
        Err(_) => panic!("node should exist"),
    }
}

#[test]
fn remove_then_connect_is_not_found() {
    let mut pool = connected("n1", &[], 7);
    assert_eq!(pool.remove("n1".to_string()), RemoveResult::Success);
    assert!(matches!(pool.connect("n1".to_string()), Err(ConnectResult::NodeNotFound)));
    assert!(!pool.is_connected("n1".to_string()).connected);
    assert!(pool.instances.get(&"n1".to_string()).is_none());
}

#[test]
fn second_connect_replaces_session() {
    let mut pool = connected("n1", &[], 1);
    assert!(pool.connect("n1".to_string()).is_ok());
    assert!(pool.instances.get(&"n1".to_string()).is_none());
    let h = Handshake::Accepted { session: 2, platform: "Linux again".to_string() };
    assert_eq!(pool.finish_connect("n1".to_string(), h), ConnectResult::Success);
    assert_eq!(pool.instances.get(&"n1".to_string()).unwrap().session, 2);
    let st = pool.is_connected("n1".to_string());
    assert!(st.connected);
    assert_eq!(st.platform, "Linux again");
}

#[test]
fn rejected_credentials_leave_no_session() {
    let mut pool = pool_with("n1", &[("username", "u"), ("password", "p")]);
    let req = pool.connect("n1".to_string()).ok().unwrap();
    assert_eq!(req.password, "p");
    assert_eq!(pool.finish_connect("n1".to_string(), Handshake::Rejected), ConnectResult::NotAuthenticated);
    assert!(!pool.is_connected("n1".to_string()).connected);
}

#[test]
fn disconnect_is_idempotent() {
    let mut pool = connected("n1", &[], 1);
    assert_eq!(pool.disconnect("n1".to_string()), DisconnectResult::Success);
    assert_eq!(pool.disconnect("n1".to_string()), DisconnectResult::Success);
    assert!(!pool.is_connected("n1".to_string()).connected);
}

#[test]
fn parameter_resolution_order() {
    let mut pool = pool_with("n1", &[("username", "node-user")]);
    pool.set_param("username".to_string(), "pool-user".to_string());
    pool.set_param("password".to_string(), "pool-pass".to_string());
    let node = pool.nodes.get(&"n1".to_string()).unwrap();
    assert_eq!(pool.get_node_param(node, NodeParameters::Username), "node-user");
    assert_eq!(pool.get_node_param(node, NodeParameters::Password), "pool-pass");
    assert_eq!(pool.get_node_param(node, NodeParameters::Distr), "");
}

#[test]
fn deploy_copy_failure_clears_all_flags() {
    let mut pool = connected("n1", &[("distr", "/srv/a.tar.xz")], 1);
    let d = started(&pool, "n1");
    match d.action() {
        DeployAction::Upload { local_path, remote_path } => {
            assert_eq!(local_path, "/srv/a.tar.xz");
            assert_eq!(remote_path, "/tmp/visao-archive.tar.xz");
        }
        DeployAction::Exec { .. } => panic!("copy comes first"),
    }
    let r = done(pool.deploy_step(d, DeployEvent::Uploaded(false)));
    assert_eq!(r, DeployResult::DeployCopyFailed);
    assert_eq!(flags(status_of(&pool, "n1")), (false, false, false, false));
}

#[test]
fn deploy_extraction_failure_keeps_copy() {
    let mut pool = connected("n1", &[], 1);
    let d = next(pool.deploy_step(started(&pool, "n1"), DeployEvent::Uploaded(true)));
    assert_eq!(d.stage, DeployStage::Extract);
    let r = done(pool.deploy_step(d, DeployEvent::Output(String::new())));
    assert_eq!(r, DeployResult::DeployExtractionFailed);
    assert_eq!(flags(status_of(&pool, "n1")), (true, false, false, false));
}

#[test]
fn deploy_test_failure() {
    let mut pool = connected("n1", &[], 1);
    let d = next(pool.deploy_step(started(&pool, "n1"), DeployEvent::Uploaded(true)));
    let d = next(pool.deploy_step(d, DeployEvent::Output("ok\n".to_string())));
    match d.action() {
        DeployAction::Exec { command } => assert_eq!(command, "/tmp/visao/bin/visao --version"),
        DeployAction::Upload { .. } => panic!("test runs a command"),
    }
    let r = done(pool.deploy_step(d, DeployEvent::Output(String::new())));
    assert_eq!(r, DeployResult::DeployTestFailed);
    assert_eq!(flags(status_of(&pool, "n1")), (true, true, false, false));
}

#[test]
fn deploy_restarts_from_cleared_flags() {
    let mut pool = connected("n1", &[], 1);
    let d = next(pool.deploy_step(started(&pool, "n1"), DeployEvent::Uploaded(true)));
    let d = next(pool.deploy_step(d, DeployEvent::Output("ok".to_string())));
    let r = done(pool.deploy_step(d, DeployEvent::Output("visao 1.0".to_string())));
    assert_eq!(r, DeployResult::Success);
    let d = started(&pool, "n1");
    assert_eq!(d.stage, DeployStage::Copy);
    assert_eq!(flags(d.status), (false, false, false, false));
}

#[test]
fn deploy_self_is_invalid_whatever_the_state() {
    let mut pool: NodePool<u32> = NodePool::new();
    assert!(matches!(pool.deploy("none".to_string(), DeploySubject::Delta), DeployProgress::Done(DeployResult::InvalidArgument)));
    pool.add("n1".to_string(), "h:22".to_string(), Table::new());
    assert!(matches!(pool.deploy("n1".to_string(), DeploySubject::Delta), DeployProgress::Done(DeployResult::InvalidArgument)));
    let pool = connected("n2", &[], 3);
    assert!(matches!(pool.deploy("n2".to_string(), DeploySubject::Delta), DeployProgress::Done(DeployResult::InvalidArgument)));
}

#[test]
fn deploy_needs_connection() {
    let pool = pool_with("n1", &[]);
    assert!(matches!(pool.deploy("n1".to_string(), DeploySubject::Visao), DeployProgress::Done(DeployResult::NodeNotConnected)));
    assert!(matches!(pool.run("n1".to_string(), DeploySubject::Visao), Err(RunResult::NodeNotConnected)));
}

#[test]
fn bad_bind_port_and_address_are_replaced() {
    let pool = connected("n1", &[("bind_port", "notaport"), ("bind_addr", "1.2.3.4' ; rm -rf /")], 1);
    let plan = pool.run("n1".to_string(), DeploySubject::Visao).ok().unwrap();
    assert_eq!(plan.commands.len(), 6);
    assert_eq!(
        plan.commands[0],
        "/tmp/visao/bin/visao --server 'tcp://127.0.0.1:5700' < /dev/null > /dev/null 2> /dev/null &"
    );
    assert_eq!(plan.commands[2], "echo 127.0.0.1 > /tmp/visao/bind_addr");
    assert_eq!(plan.commands[3], "echo 5700 > /tmp/visao/bind_port");
    let node = pool.nodes.get(&"n1".to_string()).unwrap();
    let (a, p) = pool.infer_conn_params(node);
    assert_eq!((a.as_str(), p.as_str()), ("127.0.0.1", "5700"));
}

#[test]
fn valid_bind_endpoint_is_kept() {
    let pool = connected("n1", &[("bind_port", "6000"), ("bind_addr", "10.0.0.5")], 1);
    let node = pool.nodes.get(&"n1".to_string()).unwrap();
    let (a, p) = pool.infer_conn_params(node);
    assert_eq!((a.as_str(), p.as_str()), ("10.0.0.5", "6000"));
    let out_of_range = connected("n2", &[("bind_port", "65536"), ("bind_addr", "say \"hi\"")], 1);
    let node = out_of_range.nodes.get(&"n2".to_string()).unwrap();
    let (a, p) = out_of_range.infer_conn_params(node);
    assert_eq!((a.as_str(), p.as_str()), ("127.0.0.1", "5700"));
}

#[test]
fn run_without_pid_marker_fails() {
    let mut pool = connected("n1", &[], 1);
    let plan = pool.run("n1".to_string(), DeploySubject::Visao).ok().unwrap();
    assert!(plan.stop_command.contains("kill $(cat /tmp/visao/pid)"));
    assert_eq!(pool.run_finish(plan, "nothing here".to_string()), RunResult::RunFailed);
    assert!(!status_of(&pool, "n1").running);
}

#[test]
fn is_alive_on_disconnected_node_is_dead() {
    let pool = pool_with("n1", &[]);
    let a = answer(pool.is_alive("n1".to_string()));
    assert!(!a.alive);
    assert_eq!(a.bind_addr, "");
    assert_eq!(a.bind_port, 0);
    let empty: NodePool<u32> = NodePool::new();
    assert!(!answer(empty.is_alive("nobody".to_string())).alive);
}

#[test]
fn alive_probe_rejects_bad_answers() {
    assert!(!answer(AliveStage::ReadPid.next("no such file\n".to_string())).alive);
    assert!(!answer(AliveStage::ReadPid.next("".to_string())).alive);
    assert!(!answer(AliveStage::CheckPid.next("".to_string())).alive);
    let (cmd, stage) = ask(AliveStage::ReadAddr.next(" 0.0.0.0\n".to_string()));
    assert_eq!(cmd, "cat /tmp/visao/bind_port");
    let a = answer(stage.next("http\n".to_string()));
    assert!(!a.alive);
    assert_eq!(a.bind_addr, "");
}

#[test]
fn end_to_end_deploy_run_and_probe() {
    let mut pool = pool_with("n1", &[("username", "user"), ("password", "pass"), ("distr", "/srv/visao.tar.xz")]);
    let req = pool.connect("n1".to_string()).ok().unwrap();
    assert_eq!((req.username.as_str(), req.password.as_str()), ("user", "pass"));
    let h = Handshake::Accepted { session: 9, platform: "Linux n1 6.1".to_string() };
    assert_eq!(pool.finish_connect("n1".to_string(), h), ConnectResult::Success);

    let d = next(pool.deploy_step(started(&pool, "n1"), DeployEvent::Uploaded(true)));
    let d = next(pool.deploy_step(d, DeployEvent::Output("ok\n".to_string())));
    let r = done(pool.deploy_step(d, DeployEvent::Output("visao 0.1\n".to_string())));
    assert_eq!(r, DeployResult::Success);
    assert_eq!(flags(status_of(&pool, "n1")), (true, true, true, true));

    let plan = pool.run("n1".to_string(), DeploySubject::Visao).ok().unwrap();
    assert_eq!(plan.commands[3], "echo 5700 > /tmp/visao/bind_port");
    assert_eq!(pool.run_finish(plan, "pid 4242\n".to_string()), RunResult::Success);
    assert!(status_of(&pool, "n1").running);
    assert!(status_of(&pool, "n1").deployed);

    let (cmd, stage) = ask(pool.is_alive("n1".to_string()));
    assert_eq!(cmd, "cat /tmp/visao/pid");
    let (cmd, stage) = ask(stage.next("4242\n".to_string()));
    assert_eq!(cmd, "kill -0 4242 && echo runs");
    let (cmd, stage) = ask(stage.next("runs\n".to_string()));
    assert_eq!(cmd, "cat /tmp/visao/bind_addr");
    let (_, stage) = ask(stage.next("127.0.0.1\n".to_string()));
    let a = answer(stage.next("5700\n".to_string()));
    assert!(a.alive);
    assert_eq!(a.bind_addr, "127.0.0.1");
    assert_eq!(a.bind_port, 5700);
}

#[test]
fn status_records() {
    let s = SubjectStatus::new();
    assert_eq!(flags(s), (false, false, false, false));
    assert!(!s.running);
    let mut c = ConnStatus::new(true);
    assert!(c.connected);
    assert_eq!(c.platform, "");
    assert_eq!(c.get_subject(DeploySubject::Visao), SubjectStatus::new());
    let mut up = SubjectStatus::new();
    up.running = true;
    c.set_subject(DeploySubject::Visao, up);
    c.set_subject(DeploySubject::Visao, up);
    assert_eq!(c.subjects.len(), 1);
    assert_eq!(c.get_subject(DeploySubject::Visao), up);
    assert_eq!(c.get_subject(DeploySubject::Delta), SubjectStatus::new());
    let copy = c.snapshot();
    assert_eq!(copy.get_subject(DeploySubject::Visao), up);
    let a = SubjectAliveStatus::new();
    assert!(!a.alive && a.bind_addr.is_empty() && a.bind_port == 0);
    assert!(ConnAliveStatus::new().subjects.is_empty());
    assert_eq!(NodeParameters::BindPort.key(), "bind_port");
}
