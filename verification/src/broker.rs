use crate::info::{InstanceInfo, RespInstanceInfo};
use crate::instance::unit_view;
use crate::operations::{
    auto_resume, create_model, execute_model, halt_model, instance_create, instance_execute,
    instance_halt, instance_infos, instance_list, instance_start, instance_stop,
    instance_try_remove, instance_update, invalid_name, list_model, remove_model, require_instance,
    resume_model, shutdown_model, shutdown_target, start_model, stop_model, update_model,
};
use crate::registry::{InstanceMap, SlotView, has_key, key_index};
use vstd::prelude::*;

verus! {

/// A request to the instance broker.
#[derive(Debug)]
pub enum IOperationTypes {
    Create(InstanceInfo),
    Start(String),
    Stop(String),
    Halt(String),
    Remove(String),
    Execute(String, String),
    StdoutRead(String),
    StdoutGetReader(String),
    SaveConfiguration,
    ListInstances,
    Update(String, InstanceInfo),
    Shutdown,
    KeepInstanceRunning,
}

/// What the broker's caller is to do after a request was decided.
pub enum BrokerAction {
    /// Answer the request with this result.
    Reply(Result<(), String>),
    /// Spawn the program of the instance under this name, record the
    /// outcome with `record_start`, and answer with its result.
    Spawn(String),
    /// Write this line to the standard input of the instance under the
    /// name, and answer with `execute_outcome` of the write.
    WriteLine(String, String),
    /// Kill the process of the instance under this name, and answer with
    /// `halt_outcome` of the kill.
    Kill(String),
    /// Answer with the output log of the instance under this name.
    ReadLog(String),
    /// Answer with a new listener to the output of the instance under this
    /// name.
    Subscribe(String),
    /// Store these descriptions and answer with the outcome.
    Save(Vec<InstanceInfo>),
    /// Answer with this listing.
    List(Vec<RespInstanceInfo>),
    /// Start these instances again (spawn and `record_start` each); no
    /// answer.
    Restart(Vec<String>),
    /// Kill the process of the named instance, if one is named; no answer.
    ShutdownKill(Option<String>),
}

/// What was observed of the process of the instance under `name`: whether
/// it still has an id (false for an unregistered name).
pub open spec fn observed_alive(s: Seq<SlotView>, alive: Seq<bool>, name: Seq<char>) -> bool {
    has_key(s, name) && alive[key_index(s, name)]
}

pub open spec fn reply_is(a: BrokerAction, res: Result<(), Seq<char>>) -> bool {
    a matches BrokerAction::Reply(x) && unit_view(x) == res
}

pub open spec fn line_action(res: Result<Seq<char>, Seq<char>>, name: Seq<char>, a: BrokerAction) -> bool {
    match res {
        Ok(line) => a matches BrokerAction::WriteLine(k, l) && k@ == name && l@ == line,
        Err(e) => reply_is(a, Err(e)),
    }
}

/// How the broker answers each request, and how the registry `s` becomes
/// `t`. `alive` holds, per entry, whether its process still has an id;
/// `path_is_dir` whether the working directory of a new instance exists.
pub open spec fn step_spec(
    s: Seq<SlotView>,
    t: Seq<SlotView>,
    op: IOperationTypes,
    alive: Seq<bool>,
    path_is_dir: bool,
    a: BrokerAction,
) -> bool {
    match op {
        IOperationTypes::Create(info) => {
            &&& t == create_model(s, info@, path_is_dir).0
            &&& reply_is(a, create_model(s, info@, path_is_dir).1)
        },
        IOperationTypes::Start(name) => {
            &&& t == s
            &&& match start_model(s, name@, observed_alive(s, alive, name@)) {
                Ok(_) => a matches BrokerAction::Spawn(k) && k@ == name@,
                Err(e) => reply_is(a, Err(e)),
            }
        },
        IOperationTypes::Stop(name) => {
            &&& t == stop_model(s, name@, observed_alive(s, alive, name@)).0
            &&& line_action(stop_model(s, name@, observed_alive(s, alive, name@)).1, name@, a)
        },
        IOperationTypes::Halt(name) => {
            &&& t == halt_model(s, name@).0
            &&& match halt_model(s, name@).1 {
                Ok(_) => a matches BrokerAction::Kill(k) && k@ == name@,
                Err(e) => reply_is(a, Err(e)),
            }
        },
        IOperationTypes::Remove(name) => {
            &&& t == remove_model(s, name@, observed_alive(s, alive, name@)).0
            &&& reply_is(a, remove_model(s, name@, observed_alive(s, alive, name@)).1)
        },
        IOperationTypes::Execute(name, command) => {
            &&& t == s
            &&& line_action(execute_model(s, name@, command@, observed_alive(s, alive, name@)), name@, a)
        },
        IOperationTypes::StdoutRead(name) => {
            &&& t == s
            &&& if has_key(s, name@) {
                a matches BrokerAction::ReadLog(k) && k@ == name@
            } else {
                reply_is(a, Err(invalid_name()))
            }
        },
        IOperationTypes::StdoutGetReader(name) => {
            &&& t == s
            &&& if has_key(s, name@) {
                a matches BrokerAction::Subscribe(k) && k@ == name@
            } else {
                reply_is(a, Err(invalid_name()))
            }
        },
        IOperationTypes::SaveConfiguration => {
            &&& t == s
            &&& a matches BrokerAction::Save(v) && v@.map_values(|x: InstanceInfo| x@) == s.map_values(|e: SlotView| e.instance.info)
        },
        IOperationTypes::ListInstances => {
            &&& t == s
            &&& a matches BrokerAction::List(v) && v@.map_values(|x: RespInstanceInfo| x@) == list_model(s, alive)
        },
        IOperationTypes::Update(name, info) => {
            &&& t == update_model(s, name@, info@, observed_alive(s, alive, name@)).0
            &&& reply_is(a, update_model(s, name@, info@, observed_alive(s, alive, name@)).1)
        },
        IOperationTypes::Shutdown => {
            match shutdown_model(s) {
                None => t == s && a matches BrokerAction::ShutdownKill(None),
                Some(k) => {
                    &&& t == halt_model(s, k).0
                    &&& if halt_model(s, k).1 is Ok {
                        a matches BrokerAction::ShutdownKill(Some(x)) && x@ == k
                    } else {
                        a matches BrokerAction::ShutdownKill(None)
                    }
                },
            }
        },
        IOperationTypes::KeepInstanceRunning => {
            &&& t == s
            &&& a matches BrokerAction::Restart(v) && v@.map_values(|x: String| x@) == resume_model(s, alive, s.len() as int)
        },
    }
}

fn observe(instance_map: &InstanceMap, alive: &Vec<bool>, name: &String) -> (b: bool)
    requires
        instance_map.wf(),
        alive@.len() == instance_map.registry().len(),
    ensures
        b == observed_alive(instance_map.registry(), alive@, name@),
{
    match instance_map.find(name) {
        Some(i) => alive[i],
        None => false,
    }
}

/// Decides one request to the instance broker. `alive[i]` is whether the
/// process of the `i`-th entry, if any, still has an id; `path_is_dir` is
/// whether the working directory named by a `Create` request exists.
pub fn broker_step(instance_map: &mut InstanceMap, op: IOperationTypes, alive: &Vec<bool>, path_is_dir: bool) -> (a: BrokerAction)
    requires
        old(instance_map).wf(),
        alive@.len() == old(instance_map).registry().len(),
    ensures
        final(instance_map).wf(),
        step_spec(old(instance_map).registry(), final(instance_map).registry(), op, alive@, path_is_dir, a),
{
    match op {
        IOperationTypes::Create(info) => BrokerAction::Reply(instance_create(instance_map, info, path_is_dir)),
        IOperationTypes::Start(name) => {
            let pid = observe(instance_map, alive, &name);
            match instance_start(instance_map, name.clone(), pid) {
                Ok(()) => BrokerAction::Spawn(name),
                Err(e) => BrokerAction::Reply(Err(e)),
            }
        },
        IOperationTypes::Stop(name) => {
            let pid = observe(instance_map, alive, &name);
            match instance_stop(instance_map, name.clone(), pid) {
                Ok(line) => BrokerAction::WriteLine(name, line),
                Err(e) => BrokerAction::Reply(Err(e)),
            }
        },
        IOperationTypes::Halt(name) => {
            match instance_halt(instance_map, &name) {
                Ok(()) => BrokerAction::Kill(name),
                Err(e) => BrokerAction::Reply(Err(e)),
            }
        },
        IOperationTypes::Remove(name) => {
            let pid = observe(instance_map, alive, &name);
            BrokerAction::Reply(instance_try_remove(instance_map, name, pid))
        },
        IOperationTypes::Execute(name, command) => {
            let pid = observe(instance_map, alive, &name);
            match instance_execute(instance_map, name.clone(), command, pid) {
                Ok(line) => BrokerAction::WriteLine(name, line),
                Err(e) => BrokerAction::Reply(Err(e)),
            }
        },
        IOperationTypes::StdoutRead(name) => {
            match require_instance(instance_map, &name) {
                Ok(()) => BrokerAction::ReadLog(name),
                Err(e) => BrokerAction::Reply(Err(e)),
            }
        },
        IOperationTypes::StdoutGetReader(name) => {
            match require_instance(instance_map, &name) {
                Ok(()) => BrokerAction::Subscribe(name),
                Err(e) => BrokerAction::Reply(Err(e)),
            }
        },
        IOperationTypes::SaveConfiguration => BrokerAction::Save(instance_infos(instance_map)),
        IOperationTypes::ListInstances => BrokerAction::List(instance_list(instance_map, alive)),
        IOperationTypes::Update(name, info) => {
            let pid = observe(instance_map, alive, &name);
            BrokerAction::Reply(instance_update(instance_map, name, info, pid))
        },
        IOperationTypes::Shutdown => {
            match shutdown_target(instance_map) {
                None => BrokerAction::ShutdownKill(None),
                Some(k) => {
                    match instance_halt(instance_map, &k) {
                        Ok(()) => BrokerAction::ShutdownKill(Some(k)),
                        Err(_) => BrokerAction::ShutdownKill(None),
                    }
                },
            }
        },
        IOperationTypes::KeepInstanceRunning => BrokerAction::Restart(auto_resume(instance_map, alive)),
    }
}

} // verus!
