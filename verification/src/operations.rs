use crate::info::{InstanceInfo, InstanceInfoView, InstanceStatus, RespInstanceInfo, RespInstanceInfoView, resp_of};
use crate::instance::{Instance, InstanceView, fresh_instance, status_of, started, stopped_by_hand, unit_view, text_view, no_process_error, command_line};
use crate::registry::{InstanceMap, SlotView, has_key, key_index, lookup, distinct_keys, lemma_has_key_index, lemma_remove_insert};
use vstd::prelude::*;

verus! {

/// The error given for a name that is not registered.
pub open spec fn invalid_name() -> Seq<char> {
    "Invalid instance name"@
}

fn invalid_name_error() -> (e: String)
    ensures
        e@ == invalid_name(),
{
    String::from_str("Invalid instance name")
}

/// The entry of `s` under `name` with its instance replaced.
pub open spec fn set_instance(s: Seq<SlotView>, name: Seq<char>, inst: InstanceView) -> Seq<SlotView> {
    s.update(key_index(s, name), SlotView { key: name, instance: inst })
}

// ---------------------------------------------------------------- create

pub open spec fn create_model(s: Seq<SlotView>, info: InstanceInfoView, path_is_dir: bool) -> (Seq<SlotView>, Result<(), Seq<char>>) {
    if has_key(s, info.name) {
        (s, Err("Instance exist"@))
    } else if !path_is_dir {
        (s, Err("Path not exists"@))
    } else {
        (s.push(SlotView { key: info.name, instance: fresh_instance(info) }), Ok(()))
    }
}

/// Registers a new instance under its own name. `path_is_dir` is whether
/// the instance's working directory exists as a directory.
pub fn instance_create(instance_map: &mut InstanceMap, instance_info: InstanceInfo, path_is_dir: bool) -> (r: Result<(), String>)
    requires
        old(instance_map).wf(),
    ensures
        final(instance_map).wf(),
        (final(instance_map).registry(), unit_view(r)) == create_model(old(instance_map).registry(), instance_info@, path_is_dir),
{
    if instance_map.contains_key(&instance_info.name) {
        return Err(String::from_str("Instance exist"));
    }
    if !path_is_dir {
        return Err(String::from_str("Path not exists"));
    }
    let key = instance_info.name.clone();
    let ghost info = instance_info@;
    instance_map.push_slot(key, Instance::new(instance_info));
    proof {
        let s = old(instance_map).registry();
        let t = final(instance_map).registry();
        assert forall|i: int, j: int| 0 <= i < t.len() && 0 <= j < t.len() && #[trigger] t[i].key == #[trigger] t[j].key implies i == j by {
            if i < s.len() && j == s.len() {
                assert(s[i] == s[i]);
            }
            if j < s.len() && i == s.len() {
                assert(s[j] == s[j]);
            }
        }
    }
    Ok(())
}

// ---------------------------------------------------------------- start

pub open spec fn start_model(s: Seq<SlotView>, name: Seq<char>, pid_present: bool) -> Result<(), Seq<char>> {
    if !has_key(s, name) {
        Err(invalid_name())
    } else if status_of(lookup(s, name), pid_present) == InstanceStatus::Running {
        Err("Instance is already running"@)
    } else {
        Ok(())
    }
}

/// Decides whether the instance under `name` may be started: `Ok` means its
/// program is to be spawned now (and the outcome given to `record_start`).
/// `pid_present` is whether its process, if any, still has an id.
pub fn instance_start(instance_map: &InstanceMap, name: String, pid_present: bool) -> (r: Result<(), String>)
    requires
        instance_map.wf(),
    ensures
        unit_view(r) == start_model(instance_map.registry(), name@, pid_present),
{
    match instance_map.find(&name) {
        None => Err(invalid_name_error()),
        Some(i) => {
            if instance_map.instance_at(i).status(pid_present) == InstanceStatus::Running {
                Err(String::from_str("Instance is already running"))
            } else {
                Ok(())
            }
        },
    }
}

pub open spec fn record_start_model(s: Seq<SlotView>, name: Seq<char>, spawned: Result<(), Seq<char>>) -> Seq<SlotView> {
    match spawned {
        Ok(_) => set_instance(s, name, started(lookup(s, name))),
        Err(_) => s,
    }
}

/// Records the outcome of spawning the program of the instance under
/// `name`, and gives the reply.
pub fn record_start(instance_map: &mut InstanceMap, name: &String, spawned: Result<(), String>) -> (r: Result<(), String>)
    requires
        old(instance_map).wf(),
        has_key(old(instance_map).registry(), name@),
    ensures
        final(instance_map).wf(),
        final(instance_map).registry() == record_start_model(old(instance_map).registry(), name@, unit_view(spawned)),
        unit_view(r) == unit_view(spawned),
{
    let i = instance_map.find(name).unwrap();
    let (key, mut inst) = instance_map.remove_at(i);
    let r = inst.start(spawned);
    instance_map.insert_at(i, key, inst);
    proof {
        lemma_remove_insert(old(instance_map).registry(), i as int, final(instance_map).registry()[i as int]);
        lemma_has_key_index(old(instance_map).registry(), name@);
        assert(final(instance_map).registry() =~= record_start_model(old(instance_map).registry(), name@, unit_view(spawned)));
    }
    r
}

// ---------------------------------------------------------------- execute

pub open spec fn execute_model(s: Seq<SlotView>, name: Seq<char>, command: Seq<char>, pid_present: bool) -> Result<Seq<char>, Seq<char>> {
    if !has_key(s, name) {
        Err(invalid_name())
    } else if status_of(lookup(s, name), pid_present) == InstanceStatus::Stopped {
        Err("Instance is stopped"@)
    } else if lookup(s, name).has_process {
        Ok(command_line(command))
    } else {
        Err(no_process_error())
    }
}

/// Decides how to run `command` in the instance under `name`: `Ok` holds
/// the line to write to the process's standard input.
pub fn instance_execute(instance_map: &InstanceMap, name: String, command: String, pid_present: bool) -> (r: Result<String, String>)
    requires
        instance_map.wf(),
    ensures
        text_view(r) == execute_model(instance_map.registry(), name@, command@, pid_present),
{
    match instance_map.find(&name) {
        None => Err(invalid_name_error()),
        Some(i) => {
            let inst = instance_map.instance_at(i);
            if inst.status(pid_present) == InstanceStatus::Stopped {
                Err(String::from_str("Instance is stopped"))
            } else {
                inst.execute(&command)
            }
        },
    }
}

// ---------------------------------------------------------------- stop

pub open spec fn stop_model(s: Seq<SlotView>, name: Seq<char>, pid_present: bool) -> (Seq<SlotView>, Result<Seq<char>, Seq<char>>) {
    if !has_key(s, name) {
        (s, Err(invalid_name()))
    } else if status_of(lookup(s, name), pid_present) == InstanceStatus::Stopped {
        (s, Err("Instance is already stopped"@))
    } else {
        let inst = stopped_by_hand(lookup(s, name));
        (
            set_instance(s, name, inst),
            if inst.has_process {
                Ok(command_line(inst.info.stop_command))
            } else {
                Err(no_process_error())
            },
        )
    }
}

/// Decides a graceful stop of the instance under `name`: a running
/// instance is marked as stopped by hand and `Ok` holds the line (its stop
/// command) to write to the process's standard input.
pub fn instance_stop(instance_map: &mut InstanceMap, name: String, pid_present: bool) -> (r: Result<String, String>)
    requires
        old(instance_map).wf(),
    ensures
        final(instance_map).wf(),
        (final(instance_map).registry(), text_view(r)) == stop_model(old(instance_map).registry(), name@, pid_present),
{
    match instance_map.find(&name) {
        None => Err(invalid_name_error()),
        Some(i) => {
            if instance_map.instance_at(i).status(pid_present) == InstanceStatus::Stopped {
                Err(String::from_str("Instance is already stopped"))
            } else {
                let (key, mut inst) = instance_map.remove_at(i);
                inst.mark_stopped_by_hand();
                let cmd = inst.instance_info().stop_command.clone();
                let r = inst.execute(&cmd);
                instance_map.insert_at(i, key, inst);
                proof {
                    lemma_remove_insert(old(instance_map).registry(), i as int, final(instance_map).registry()[i as int]);
                    lemma_has_key_index(old(instance_map).registry(), name@);
                    assert(final(instance_map).registry() =~= stop_model(old(instance_map).registry(), name@, pid_present).0);
                }
                r
            }
        },
    }
}

// ---------------------------------------------------------------- halt

pub open spec fn halt_model(s: Seq<SlotView>, name: Seq<char>) -> (Seq<SlotView>, Result<(), Seq<char>>) {
    if !has_key(s, name) {
        (s, Err(invalid_name()))
    } else if lookup(s, name).has_process {
        (set_instance(s, name, stopped_by_hand(lookup(s, name))), Ok(()))
    } else {
        (s, Err(no_process_error()))
    }
}

/// Decides a hard stop of the instance under `name`: with a process
/// attached the instance is marked as stopped by hand and `Ok` means its
/// process is to be killed now (the outcome goes to `halt_outcome`).
pub fn instance_halt(instance_map: &mut InstanceMap, name: &String) -> (r: Result<(), String>)
    requires
        old(instance_map).wf(),
    ensures
        final(instance_map).wf(),
        (final(instance_map).registry(), unit_view(r)) == halt_model(old(instance_map).registry(), name@),
{
    match instance_map.find(name) {
        None => Err(invalid_name_error()),
        Some(i) => {
            let (key, mut inst) = instance_map.remove_at(i);
            let r = inst.halt();
            instance_map.insert_at(i, key, inst);
            proof {
                lemma_remove_insert(old(instance_map).registry(), i as int, final(instance_map).registry()[i as int]);
                lemma_has_key_index(old(instance_map).registry(), name@);
                if lookup(old(instance_map).registry(), name@).has_process {
                    assert(final(instance_map).registry() =~= halt_model(old(instance_map).registry(), name@).0);
                } else {
                    assert(final(instance_map).registry() =~= old(instance_map).registry());
                }
            }
            r
        },
    }
}

// ---------------------------------------------------------------- remove

/// The registry without the entry kept under `k`, if there is one.
pub open spec fn without_key(s: Seq<SlotView>, k: Seq<char>) -> Seq<SlotView> {
    if has_key(s, k) {
        s.remove(key_index(s, k))
    } else {
        s
    }
}

/// Removal drops the entry kept under the name that the instance's own
/// description carries.
pub open spec fn remove_model(s: Seq<SlotView>, name: Seq<char>, pid_present: bool) -> (Seq<SlotView>, Result<(), Seq<char>>) {
    if !has_key(s, name) {
        (s, Err(invalid_name()))
    } else if status_of(lookup(s, name), pid_present) == InstanceStatus::Running {
        (s, Err("Instance is still running, please stop it first!"@))
    } else {
        (without_key(s, lookup(s, name).info.name), Ok(()))
    }
}

proof fn lemma_remove_keeps_distinct(s: Seq<SlotView>, i: int)
    requires
        distinct_keys(s),
        0 <= i < s.len(),
    ensures
        distinct_keys(s.remove(i)),
{
    let t = s.remove(i);
    assert forall|a: int, b: int| 0 <= a < t.len() && 0 <= b < t.len() && #[trigger] t[a].key == #[trigger] t[b].key implies a == b by {
        let a2 = if a < i { a } else { a + 1 };
        let b2 = if b < i { b } else { b + 1 };
        assert(t[a] == s[a2]);
        assert(t[b] == s[b2]);
    }
}

/// Removes the instance under `name` unless it is running.
pub fn instance_try_remove(instance_map: &mut InstanceMap, name: String, pid_present: bool) -> (r: Result<(), String>)
    requires
        old(instance_map).wf(),
    ensures
        final(instance_map).wf(),
        (final(instance_map).registry(), unit_view(r)) == remove_model(old(instance_map).registry(), name@, pid_present),
{
    match instance_map.find(&name) {
        None => Err(invalid_name_error()),
        Some(i) => {
            let inst = instance_map.instance_at(i);
            let target = inst.instance_info().name.clone();
            if inst.status(pid_present) == InstanceStatus::Running {
                Err(String::from_str("Instance is still running, please stop it first!"))
            } else {
                match instance_map.find(&target) {
                    Some(j) => {
                        let _ = instance_map.remove_at(j);
                        proof {
                            lemma_remove_keeps_distinct(old(instance_map).registry(), j as int);
                        }
                    },
                    None => {},
                }
                Ok(())
            }
        },
    }
}

// ---------------------------------------------------------------- update

pub open spec fn update_model(s: Seq<SlotView>, name: Seq<char>, new_info: InstanceInfoView, pid_present: bool) -> (Seq<SlotView>, Result<(), Seq<char>>) {
    if !has_key(s, name) {
        (s, Err(invalid_name()))
    } else if status_of(lookup(s, name), pid_present) == InstanceStatus::Running {
        (s, Err("Cannot update running instance"@))
    } else {
        (set_instance(s, name, InstanceView { info: new_info, ..lookup(s, name) }), Ok(()))
    }
}

/// Replaces the description of the instance under `name` unless it is
/// running. The entry stays under `name`.
pub fn instance_update(instance_map: &mut InstanceMap, name: String, new_info: InstanceInfo, pid_present: bool) -> (r: Result<(), String>)
    requires
        old(instance_map).wf(),
    ensures
        final(instance_map).wf(),
        (final(instance_map).registry(), unit_view(r)) == update_model(old(instance_map).registry(), name@, new_info@, pid_present),
{
    match instance_map.find(&name) {
        None => Err(invalid_name_error()),
        Some(i) => {
            if instance_map.instance_at(i).status(pid_present) == InstanceStatus::Running {
                Err(String::from_str("Cannot update running instance"))
            } else {
                let (key, mut inst) = instance_map.remove_at(i);
                inst.set_info(new_info);
                instance_map.insert_at(i, key, inst);
                proof {
                    lemma_remove_insert(old(instance_map).registry(), i as int, final(instance_map).registry()[i as int]);
                    lemma_has_key_index(old(instance_map).registry(), name@);
                    assert(final(instance_map).registry() =~= update_model(old(instance_map).registry(), name@, new_info@, pid_present).0);
                }
                Ok(())
            }
        },
    }
}

// ---------------------------------------------------------------- lookups

/// Whether an operation on the instance under `name` may go ahead.
pub fn require_instance(instance_map: &InstanceMap, name: &String) -> (r: Result<(), String>)
    requires
        instance_map.wf(),
    ensures
        unit_view(r) == (if has_key(instance_map.registry(), name@) {
            Ok::<(), Seq<char>>(())
        } else {
            Err(invalid_name())
        }),
{
    if instance_map.contains_key(name) {
        Ok(())
    } else {
        Err(invalid_name_error())
    }
}

// ---------------------------------------------------------------- load

/// A stored description enters the registry under its name, replacing any
/// entry already kept there.
pub open spec fn load_model(s: Seq<SlotView>, info: InstanceInfoView) -> Seq<SlotView> {
    if has_key(s, info.name) {
        set_instance(s, info.name, fresh_instance(info))
    } else {
        s.push(SlotView { key: info.name, instance: fresh_instance(info) })
    }
}

/// Registers one stored description and tells whether it is to be started
/// at once (its `auto_run`).
pub fn instance_load_one(instance_map: &mut InstanceMap, instance_info: InstanceInfo) -> (auto_run: bool)
    requires
        old(instance_map).wf(),
    ensures
        final(instance_map).wf(),
        final(instance_map).registry() == load_model(old(instance_map).registry(), instance_info@),
        auto_run == instance_info@.auto_run,
{
    let auto_run = instance_info.auto_run;
    let key = instance_info.name.clone();
    let ghost info = instance_info@;
    match instance_map.find(&key) {
        Some(i) => {
            let _ = instance_map.remove_at(i);
            instance_map.insert_at(i, key, Instance::new(instance_info));
            proof {
                lemma_remove_insert(old(instance_map).registry(), i as int, final(instance_map).registry()[i as int]);
                lemma_has_key_index(old(instance_map).registry(), info.name);
                assert(final(instance_map).registry() =~= load_model(old(instance_map).registry(), info));
            }
        },
        None => {
            instance_map.push_slot(key, Instance::new(instance_info));
            proof {
                let s = old(instance_map).registry();
                let t = final(instance_map).registry();
                assert forall|i: int, j: int| 0 <= i < t.len() && 0 <= j < t.len() && #[trigger] t[i].key == #[trigger] t[j].key implies i == j by {
                    if i < s.len() && j == s.len() {
                        assert(s[i] == s[i]);
                    }
                    if j < s.len() && i == s.len() {
                        assert(s[j] == s[j]);
                    }
                }
            }
        },
    }
    auto_run
}

// ---------------------------------------------------------------- list / save

/// The listing: one row per entry, in registry order, with the status
/// that `alive` (the observation for each entry) gives.
pub open spec fn list_model(s: Seq<SlotView>, alive: Seq<bool>) -> Seq<RespInstanceInfoView> {
    Seq::new(s.len(), |i: int| resp_of(s[i].instance.info, status_of(s[i].instance, alive[i])))
}

/// Lists all instances with their status. `alive[i]` is whether the
/// process of the `i`-th entry, if any, still has an id.
pub fn instance_list(instance_map: &InstanceMap, alive: &Vec<bool>) -> (r: Vec<RespInstanceInfo>)
    requires
        alive@.len() == instance_map.registry().len(),
    ensures
        r@.map_values(|x: RespInstanceInfo| x@) == list_model(instance_map.registry(), alive@),
{
    let mut r: Vec<RespInstanceInfo> = Vec::new();
    let n = instance_map.len();
    let mut i: usize = 0;
    while i < n
        invariant
            n == instance_map.registry().len(),
            alive@.len() == n,
            i <= n,
            r@.len() == i,
            forall|j: int| 0 <= j < i ==> #[trigger] r@[j]@ == list_model(instance_map.registry(), alive@)[j],
        decreases n - i,
    {
        let inst = instance_map.instance_at(i);
        let row = RespInstanceInfo::new(inst.instance_info().clone(), inst.status(alive[i]));
        r.push(row);
        i = i + 1;
    }
    assert(r@.map_values(|x: RespInstanceInfo| x@) =~= list_model(instance_map.registry(), alive@));
    r
}

/// The descriptions of all instances, in registry order (what is saved).
pub fn instance_infos(instance_map: &InstanceMap) -> (r: Vec<InstanceInfo>)
    ensures
        r@.map_values(|x: InstanceInfo| x@) == instance_map.registry().map_values(|e: SlotView| e.instance.info),
{
    let mut r: Vec<InstanceInfo> = Vec::new();
    let n = instance_map.len();
    let mut i: usize = 0;
    while i < n
        invariant
            n == instance_map.registry().len(),
            i <= n,
            r@.len() == i,
            forall|j: int| 0 <= j < i ==> #[trigger] r@[j]@ == instance_map.registry()[j].instance.info,
        decreases n - i,
    {
        r.push(instance_map.instance_at(i).instance_info().clone());
        i = i + 1;
    }
    assert(r@.map_values(|x: InstanceInfo| x@) =~= instance_map.registry().map_values(|e: SlotView| e.instance.info));
    r
}

// ---------------------------------------------------------------- keep running

/// An instance is restarted when it asks for restarts, is stopped, and was
/// not stopped by hand.
pub open spec fn needs_restart(inst: InstanceView, pid_present: bool) -> bool {
    &&& inst.info.auto_restart
    &&& status_of(inst, pid_present) == InstanceStatus::Stopped
    &&& !inst.manually_stopped
}

/// The names, in registry order among the first `n` entries, of the
/// instances to restart.
pub open spec fn resume_model(s: Seq<SlotView>, alive: Seq<bool>, n: int) -> Seq<Seq<char>>
    decreases n,
{
    if n <= 0 {
        Seq::empty()
    } else if needs_restart(s[n - 1].instance, alive[n - 1]) {
        resume_model(s, alive, n - 1).push(s[n - 1].key)
    } else {
        resume_model(s, alive, n - 1)
    }
}

/// The names of the instances that stopped without being told to and ask
/// to be kept running; each is to be started again.
pub fn auto_resume(instance_map: &InstanceMap, alive: &Vec<bool>) -> (r: Vec<String>)
    requires
        alive@.len() == instance_map.registry().len(),
    ensures
        r@.map_values(|x: String| x@) == resume_model(instance_map.registry(), alive@, instance_map.registry().len() as int),
{
    let mut r: Vec<String> = Vec::new();
    let n = instance_map.len();
    let mut i: usize = 0;
    while i < n
        invariant
            n == instance_map.registry().len(),
            alive@.len() == n,
            i <= n,
            r@.map_values(|x: String| x@) == resume_model(instance_map.registry(), alive@, i as int),
        decreases n - i,
    {
        let inst = instance_map.instance_at(i);
        let ghost before = r@;
        if inst.instance_info().auto_restart && inst.status(alive[i]) == InstanceStatus::Stopped && !inst.manually_stopped() {
            r.push(instance_map.key_at(i).clone());
            assert(r@.map_values(|x: String| x@) =~= before.map_values(|x: String| x@).push(instance_map.registry()[i as int].key));
        }
        i = i + 1;
    }
    r
}

/// The instance a shutdown acts on: the first entry, if any.
pub open spec fn shutdown_model(s: Seq<SlotView>) -> Option<Seq<char>> {
    if s.len() == 0 {
        None
    } else {
        Some(s[0].key)
    }
}

/// The name of the instance a shutdown halts: the first one, if any.
pub fn shutdown_target(instance_map: &InstanceMap) -> (r: Option<String>)
    ensures
        match r {
            Some(k) => shutdown_model(instance_map.registry()) == Some(k@),
            None => shutdown_model(instance_map.registry()) is None,
        },
{
    if instance_map.len() == 0 {
        None
    } else {
        Some(instance_map.key_at(0).clone())
    }
}

} // verus!
