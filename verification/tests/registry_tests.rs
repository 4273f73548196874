use caimanager::broker::{broker_step, BrokerAction, IOperationTypes};
use caimanager::info::{default_false, default_stop, InstanceInfo, InstanceStatus, RespInstanceInfo};
use caimanager::instance::{execute_outcome, halt_outcome, Instance};
use caimanager::operations::{
    auto_resume, instance_create, instance_execute, instance_halt, instance_infos, instance_list,
    instance_load_one, instance_start, instance_stop, instance_try_remove, instance_update,
    record_start, require_instance, shutdown_target,
};
use caimanager::registry::InstanceMap;

fn info(name: &str, auto_restart: bool) -> InstanceInfo {
    InstanceInfo {
        name: name.to_string(),
        path: "/srv/".to_string() + name,
        app: "java".to_string(),
        parameter: vec!["-jar".to_string(), "server.jar".to_string()],
        auto_run: false,
        auto_restart,
        stop_command: default_stop(),
    }
}

fn s(x: &str) -> String {
    x.to_string()
}

fn map_with(names: &[&str]) -> InstanceMap {
    let mut m = InstanceMap::new();
    for n in names {
        assert_eq!(instance_create(&mut m, info(n, true), true), Ok(()));
    }
    m
}

fn started(m: &mut InstanceMap, name: &str) {
    assert_eq!(instance_start(m, s(name), false), Ok(()));
    assert_eq!(record_start(m, &s(name), Ok(())), Ok(()));
}

#[test]
fn defaults_are_false_and_stop() {
    assert!(!default_false());
    assert_eq!(default_stop(), "stop");
}

#[test]
fn resp_instance_info_copies_fields() {
    let r = RespInstanceInfo::new(info("alpha", true), InstanceStatus::Running);
    assert_eq!(r.name, "alpha");
    assert_eq!(r.path, "/srv/alpha");
    assert_eq!(r.app, "java");
    assert_eq!(r.parameter, vec![s("-jar"), s("server.jar")]);
    assert!(!r.auto_run);
    assert_eq!(r.status, InstanceStatus::Running);
}

#[test]
fn new_instance_is_stopped_by_hand_without_process() {
    let i = Instance::new(info("alpha", false));
    assert!(!i.has_process());
    assert!(i.manually_stopped());
    assert_eq!(i.status(true), InstanceStatus::Stopped);
    assert_eq!(i.instance_info().name, "alpha");
}

#[test]
fn create_registers_and_refuses_duplicates() {
    let mut m = InstanceMap::new();
    assert_eq!(instance_create(&mut m, info("alpha", false), true), Ok(()));
    assert_eq!(m.len(), 1);
    assert_eq!(instance_create(&mut m, info("alpha", true), true), Err(s("Instance exist")));
    assert_eq!(m.len(), 1);
    assert!(!m.instance_at(0).instance_info().auto_restart);
}

#[test]
fn create_refuses_missing_directory() {
    let mut m = InstanceMap::new();
    assert_eq!(instance_create(&mut m, info("alpha", false), false), Err(s("Path not exists")));
    assert_eq!(m.len(), 0);
}

#[test]
fn start_checks_name_and_status() {
    let mut m = map_with(&["alpha"]);
    assert_eq!(instance_start(&m, s("beta"), false), Err(s("Invalid instance name")));
    assert_eq!(instance_start(&m, s("alpha"), true), Ok(()));
    assert_eq!(record_start(&mut m, &s("alpha"), Ok(())), Ok(()));
    let i = m.instance_at(0);
    assert!(i.has_process());
    assert!(!i.manually_stopped());
    assert_eq!(instance_start(&m, s("alpha"), true), Err(s("Instance is already running")));
    assert_eq!(instance_start(&m, s("alpha"), false), Ok(()));
}

#[test]
fn failed_spawn_changes_nothing() {
    let mut m = map_with(&["alpha"]);
    assert_eq!(record_start(&mut m, &s("alpha"), Err(s("No such file or directory"))), Err(s("No such file or directory")));
    assert!(!m.instance_at(0).has_process());
    assert!(m.instance_at(0).manually_stopped());
}

#[test]
fn execute_needs_running_instance() {
    let mut m = map_with(&["alpha"]);
    assert_eq!(instance_execute(&m, s("nope"), s("list"), true), Err(s("Invalid instance name")));
    assert_eq!(instance_execute(&m, s("alpha"), s("list"), true), Err(s("Instance is stopped")));
    started(&mut m, "alpha");
    assert_eq!(instance_execute(&m, s("alpha"), s("list"), true), Ok(s("list\n")));
    assert_eq!(instance_execute(&m, s("alpha"), s("list"), false), Err(s("Instance is stopped")));
}

#[test]
fn execute_and_halt_outcomes_name_the_failure() {
    assert_eq!(execute_outcome(Ok(())), Ok(()));
    assert_eq!(execute_outcome(Err(s("Broken pipe"))), Err(s("Failed to write to stdin: Broken pipe")));
    assert_eq!(halt_outcome(Ok(())), Ok(()));
    assert_eq!(halt_outcome(Err(s("No such process"))), Err(s("Failed to kill process: No such process")));
}

#[test]
fn stop_writes_stop_command_and_marks_instance() {
    let mut m = map_with(&["alpha"]);
    assert_eq!(instance_stop(&mut m, s("alpha"), true), Err(s("Instance is already stopped")));
    started(&mut m, "alpha");
    assert!(!m.instance_at(0).manually_stopped());
    assert_eq!(instance_stop(&mut m, s("alpha"), true), Ok(s("stop\n")));
    assert!(m.instance_at(0).manually_stopped());
    assert_eq!(instance_stop(&mut m, s("ghost"), true), Err(s("Invalid instance name")));
}

#[test]
fn halt_needs_a_process() {
    let mut m = map_with(&["alpha"]);
    assert_eq!(instance_halt(&mut m, &s("alpha")), Err(s("Instance child process is not available")));
    assert_eq!(instance_halt(&mut m, &s("ghost")), Err(s("Invalid instance name")));
    started(&mut m, "alpha");
    assert_eq!(instance_halt(&mut m, &s("alpha")), Ok(()));
    assert!(m.instance_at(0).manually_stopped());
}

#[test]
fn remove_refuses_running_instances() {
    let mut m = map_with(&["alpha", "beta"]);
    started(&mut m, "alpha");
    assert_eq!(
        instance_try_remove(&mut m, s("alpha"), true),
        Err(s("Instance is still running, please stop it first!"))
    );
    assert_eq!(m.len(), 2);
    assert_eq!(instance_try_remove(&mut m, s("alpha"), false), Ok(()));
    assert_eq!(m.len(), 1);
    assert_eq!(m.key_at(0), "beta");
    assert_eq!(instance_try_remove(&mut m, s("alpha"), false), Err(s("Invalid instance name")));
}

#[test]
fn update_replaces_description_of_stopped_instance() {
    let mut m = map_with(&["alpha"]);
    let mut new_info = info("alpha", false);
    new_info.app = s("python3");
    assert_eq!(instance_update(&mut m, s("alpha"), new_info.clone(), false), Ok(()));
    assert_eq!(m.instance_at(0).instance_info().app, "python3");
    assert_eq!(instance_update(&mut m, s("ghost"), new_info.clone(), false), Err(s("Invalid instance name")));
    started(&mut m, "alpha");
    assert_eq!(instance_update(&mut m, s("alpha"), info("alpha", true), true), Err(s("Cannot update running instance")));
    assert_eq!(m.instance_at(0).instance_info().app, "python3");
}

#[test]
fn remove_after_rename_drops_the_described_name() {
    let mut m = map_with(&["alpha", "beta"]);
    assert_eq!(instance_update(&mut m, s("alpha"), info("beta", false), false), Ok(()));
    assert_eq!(instance_try_remove(&mut m, s("alpha"), false), Ok(()));
    assert_eq!(m.len(), 1);
    assert_eq!(m.key_at(0), "alpha");
}

#[test]
fn load_replaces_entry_and_reports_auto_run() {
    let mut m = map_with(&["alpha"]);
    started(&mut m, "alpha");
    let mut loaded = info("alpha", false);
    loaded.auto_run = true;
    assert!(instance_load_one(&mut m, loaded));
    assert_eq!(m.len(), 1);
    assert!(!m.instance_at(0).has_process());
    assert!(!instance_load_one(&mut m, info("beta", false)));
    assert_eq!(m.len(), 2);
    assert_eq!(m.key_at(1), "beta");
}

#[test]
fn list_and_infos_follow_registry_order() {
    let mut m = map_with(&["alpha", "beta"]);
    started(&mut m, "beta");
    let rows = instance_list(&m, &vec![true, true]);
    assert_eq!(rows.len(), 2);
    assert_eq!(rows[0].name, "alpha");
    assert_eq!(rows[0].status, InstanceStatus::Stopped);
    assert_eq!(rows[1].name, "beta");
    assert_eq!(rows[1].status, InstanceStatus::Running);
    let rows = instance_list(&m, &vec![true, false]);
    assert_eq!(rows[1].status, InstanceStatus::Stopped);
    let infos = instance_infos(&m);
    assert_eq!(infos.len(), 2);
    assert_eq!(infos[1].name, "beta");
    assert_eq!(infos[1].stop_command, "stop");
}

#[test]
fn auto_resume_picks_crashed_instances_only() {
    let mut m = InstanceMap::new();
    assert_eq!(instance_create(&mut m, info("a", true), true), Ok(()));
    assert_eq!(instance_create(&mut m, info("b", true), true), Ok(()));
    assert_eq!(instance_create(&mut m, info("c", false), true), Ok(()));
    assert_eq!(instance_create(&mut m, info("d", true), true), Ok(()));
    started(&mut m, "a");
    started(&mut m, "b");
    started(&mut m, "c");
    // "d" was never started: it counts as stopped by hand.
    let restart = auto_resume(&m, &vec![false, true, false, false]);
    assert_eq!(restart, vec![s("a")]);
    assert_eq!(instance_halt(&mut m, &s("a")), Ok(()));
    assert_eq!(auto_resume(&m, &vec![false, false, false, false]), vec![s("b")]);
}

#[test]
fn shutdown_target_is_first_entry() {
    let m = InstanceMap::new();
    assert_eq!(shutdown_target(&m), None);
    let m = map_with(&["alpha", "beta"]);
    assert_eq!(shutdown_target(&m), Some(s("alpha")));
    assert_eq!(require_instance(&m, &s("beta")), Ok(()));
    assert_eq!(require_instance(&m, &s("gamma")), Err(s("Invalid instance name")));
}

#[test]
fn broker_step_dispatches_requests() {
    let mut m = InstanceMap::new();
    match broker_step(&mut m, IOperationTypes::Create(info("alpha", true)), &vec![], true) {
        BrokerAction::Reply(r) => assert_eq!(r, Ok(())),
        _ => panic!("create must be answered"),
    }
    match broker_step(&mut m, IOperationTypes::Start(s("alpha")), &vec![false], false) {
        BrokerAction::Spawn(k) => assert_eq!(k, "alpha"),
        _ => panic!("start must spawn"),
    }
    assert_eq!(record_start(&mut m, &s("alpha"), Ok(())), Ok(()));
    match broker_step(&mut m, IOperationTypes::Execute(s("alpha"), s("say hi")), &vec![true], false) {
        BrokerAction::WriteLine(k, l) => {
            assert_eq!(k, "alpha");
            assert_eq!(l, "say hi\n");
        },
        _ => panic!("execute must write"),
    }
    match broker_step(&mut m, IOperationTypes::Remove(s("alpha")), &vec![true], false) {
        BrokerAction::Reply(r) => assert_eq!(r, Err(s("Instance is still running, please stop it first!"))),
        _ => panic!("remove must be answered"),
    }
    match broker_step(&mut m, IOperationTypes::StdoutRead(s("nope")), &vec![true], false) {
        BrokerAction::Reply(r) => assert_eq!(r, Err(s("Invalid instance name"))),
        _ => panic!("unknown instance must be refused"),
    }
    match broker_step(&mut m, IOperationTypes::StdoutGetReader(s("alpha")), &vec![true], false) {
        BrokerAction::Subscribe(k) => assert_eq!(k, "alpha"),
        _ => panic!("reader must be handed out"),
    }
    match broker_step(&mut m, IOperationTypes::ListInstances, &vec![true], false) {
        BrokerAction::List(rows) => assert_eq!(rows[0].status, InstanceStatus::Running),
        _ => panic!("list must list"),
    }
    match broker_step(&mut m, IOperationTypes::KeepInstanceRunning, &vec![false], false) {
        BrokerAction::Restart(keys) => assert_eq!(keys, vec![s("alpha")]),
        _ => panic!("sweep must name instances"),
    }
    match broker_step(&mut m, IOperationTypes::Stop(s("alpha")), &vec![true], false) {
        BrokerAction::WriteLine(_, l) => assert_eq!(l, "stop\n"),
        _ => panic!("stop must write the stop command"),
    }
    match broker_step(&mut m, IOperationTypes::KeepInstanceRunning, &vec![false], false) {
        BrokerAction::Restart(keys) => assert!(keys.is_empty()),
        _ => panic!("sweep must name instances"),
    }
    match broker_step(&mut m, IOperationTypes::Shutdown, &vec![true], false) {
        BrokerAction::ShutdownKill(k) => assert_eq!(k, Some(s("alpha"))),
        _ => panic!("shutdown must kill the first instance"),
    }
    match broker_step(&mut m, IOperationTypes::SaveConfiguration, &vec![false], false) {
        BrokerAction::Save(v) => assert_eq!(v[0].name, "alpha"),
        _ => panic!("save must hand out the descriptions"),
    }
    match broker_step(&mut m, IOperationTypes::Update(s("alpha"), info("alpha", false)), &vec![false], false) {
        BrokerAction::Reply(r) => assert_eq!(r, Ok(())),
        _ => panic!("update must be answered"),
    }
    match broker_step(&mut m, IOperationTypes::Halt(s("alpha")), &vec![false], false) {
        BrokerAction::Kill(k) => assert_eq!(k, "alpha"),
        _ => panic!("halt must kill"),
    }
}

#[test]
fn broker_refusals_leave_registry_unchanged() {
    let mut m = map_with(&["alpha"]);
    match broker_step(&mut m, IOperationTypes::Create(info("alpha", false)), &vec![false], true) {
        BrokerAction::Reply(r) => assert_eq!(r, Err(s("Instance exist"))),
        _ => panic!("duplicate must be refused"),
    }
    match broker_step(&mut m, IOperationTypes::Halt(s("alpha")), &vec![false], true) {
        BrokerAction::Reply(r) => assert_eq!(r, Err(s("Instance child process is not available"))),
        _ => panic!("halt without process must be refused"),
    }
    assert_eq!(m.len(), 1);
    assert!(m.instance_at(0).instance_info().auto_restart);
    assert!(m.instance_at(0).manually_stopped());
}

#[test]
fn shutdown_on_empty_registry_kills_nothing() {
    let mut m = InstanceMap::new();
    match broker_step(&mut m, IOperationTypes::Shutdown, &vec![], false) {
        BrokerAction::ShutdownKill(k) => assert_eq!(k, None),
        _ => panic!("shutdown is not answered"),
    }
}
