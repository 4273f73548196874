use crate::broker::{BrokerAction, IOperationTypes, step_spec};
use crate::info::{InstanceInfoView, InstanceStatus};
use crate::instance::{InstanceView, fresh_instance, started, status_of, stopped_by_hand};
use crate::operations::{
    create_model, execute_model, halt_model, load_model, needs_restart, record_start_model,
    remove_model, resume_model, set_instance, start_model, stop_model, update_model, without_key,
};
use crate::registry::{SlotView, distinct_keys, has_key, key_index, lemma_key_index, lookup, map_of};
use vstd::prelude::*;

verus! {

proof fn lemma_push_distinct(s: Seq<SlotView>, v: SlotView)
    requires
        distinct_keys(s),
        !has_key(s, v.key),
    ensures
        distinct_keys(s.push(v)),
{
    let t = s.push(v);
    assert forall|i: int, j: int| 0 <= i < t.len() && 0 <= j < t.len() && #[trigger] t[i].key == #[trigger] t[j].key implies i == j by {
        if i < s.len() && j == s.len() {
            assert(s[i] == s[i]);
        }
        if j < s.len() && i == s.len() {
            assert(s[j] == s[j]);
        }
    }
}

proof fn lemma_set_distinct(s: Seq<SlotView>, k: Seq<char>, inst: InstanceView)
    requires
        distinct_keys(s),
        has_key(s, k),
    ensures
        distinct_keys(set_instance(s, k, inst)),
        set_instance(s, k, inst).len() == s.len(),
{
    let t = set_instance(s, k, inst);
    let x = key_index(s, k);
    assert forall|i: int, j: int| 0 <= i < t.len() && 0 <= j < t.len() && #[trigger] t[i].key == #[trigger] t[j].key implies i == j by {
        assert(t[i].key == s[i].key);
        assert(t[j].key == s[j].key);
    }
}

proof fn lemma_remove_distinct(s: Seq<SlotView>, i: int)
    requires
        distinct_keys(s),
        0 <= i < s.len(),
    ensures
        distinct_keys(s.remove(i)),
{
    let t = s.remove(i);
    assert forall|a: int, b: int| 0 <= a < t.len() && 0 <= b < t.len() && #[trigger] t[a].key == #[trigger] t[b].key implies a == b by {
        let a2 = if a < i { a } else { a + 1 };
        let b2 = if b < i { b } else { b + 1 };
        assert(t[a] == s[a2]);
        assert(t[b] == s[b2]);
    }
}

/// Appending an entry under a new name adds that name to the map.
proof fn lemma_map_push(s: Seq<SlotView>, v: SlotView)
    requires
        distinct_keys(s),
        !has_key(s, v.key),
    ensures
        map_of(s.push(v)) == map_of(s).insert(v.key, v.instance),
{
    let t = s.push(v);
    lemma_push_distinct(s, v);
    lemma_key_index(t, s.len() as int);
    assert forall|k: Seq<char>| #[trigger] map_of(t).contains_key(k) == map_of(s).insert(v.key, v.instance).contains_key(k) by {
        if has_key(t, k) && k != v.key {
            let i = key_index(t, k);
            assert(t[i] == s[i]);
        }
        if has_key(s, k) {
            let i = key_index(s, k);
            assert(t[i] == s[i]);
        }
    }
    assert forall|k: Seq<char>| #[trigger] map_of(t).contains_key(k) implies map_of(t)[k] == map_of(s).insert(v.key, v.instance)[k] by {
        if k != v.key {
            let i = key_index(t, k);
            assert(t[i] == s[i]);
            lemma_key_index(s, i);
        }
    }
    assert(map_of(t) =~= map_of(s).insert(v.key, v.instance));
}

/// Replacing the instance under a registered name changes only that name's
/// value in the map.
proof fn lemma_map_set(s: Seq<SlotView>, k0: Seq<char>, inst: InstanceView)
    requires
        distinct_keys(s),
        has_key(s, k0),
    ensures
        map_of(set_instance(s, k0, inst)) == map_of(s).insert(k0, inst),
{
    let t = set_instance(s, k0, inst);
    let x = key_index(s, k0);
    lemma_set_distinct(s, k0, inst);
    lemma_key_index(t, x);
    assert forall|k: Seq<char>| #[trigger] map_of(t).contains_key(k) == map_of(s).insert(k0, inst).contains_key(k) by {
        if has_key(t, k) {
            let i = key_index(t, k);
            assert(t[i].key == s[i].key);
        }
        if has_key(s, k) {
            let i = key_index(s, k);
            assert(t[i].key == s[i].key);
        }
    }
    assert forall|k: Seq<char>| #[trigger] map_of(t).contains_key(k) implies map_of(t)[k] == map_of(s).insert(k0, inst)[k] by {
        if k != k0 {
            let i = key_index(t, k);
            assert(t[i] == s[i]);
            lemma_key_index(s, i);
        }
    }
    assert(map_of(t) =~= map_of(s).insert(k0, inst));
}

/// Dropping the entry under a name removes that name from the map.
proof fn lemma_map_remove(s: Seq<SlotView>, k0: Seq<char>)
    requires
        distinct_keys(s),
    ensures
        map_of(without_key(s, k0)) == map_of(s).remove(k0),
        distinct_keys(without_key(s, k0)),
{
    if has_key(s, k0) {
        let x = key_index(s, k0);
        let t = s.remove(x);
        lemma_remove_distinct(s, x);
        assert forall|k: Seq<char>| #[trigger] map_of(t).contains_key(k) == map_of(s).remove(k0).contains_key(k) by {
            if has_key(t, k) {
                let i = key_index(t, k);
                let i2 = if i < x { i } else { i + 1 };
                assert(t[i] == s[i2]);
                lemma_key_index(s, i2);
            }
            if has_key(s, k) && k != k0 {
                let i = key_index(s, k);
                let i2 = if i < x { i } else { i - 1 };
                assert(t[i2] == s[i]);
            }
        }
        assert forall|k: Seq<char>| #[trigger] map_of(t).contains_key(k) implies map_of(t)[k] == map_of(s).remove(k0)[k] by {
            let i = key_index(t, k);
            let i2 = if i < x { i } else { i + 1 };
            assert(t[i] == s[i2]);
            lemma_key_index(s, i2);
        }
        assert(map_of(t) =~= map_of(s).remove(k0));
    } else {
        assert(map_of(s) =~= map_of(s).remove(k0));
    }
}

/// A create that succeeds registers the description under its name, with
/// no process and counted as stopped by hand, and changes nothing else; a
/// create under a name already registered is refused with
/// `Instance exist`.
pub proof fn law_create_registers(s: Seq<SlotView>, info: InstanceInfoView, path_is_dir: bool)
    requires
        distinct_keys(s),
    ensures
        has_key(s, info.name) ==> create_model(s, info, path_is_dir) == (s, Err::<(), Seq<char>>("Instance exist"@)),
        create_model(s, info, path_is_dir).1 is Ok ==> map_of(create_model(s, info, path_is_dir).0)
            == map_of(s).insert(info.name, fresh_instance(info)),
        create_model(s, info, path_is_dir).1 is Ok <==> (!has_key(s, info.name) && path_is_dir),
        forall|p: bool| #[trigger] status_of(fresh_instance(info), p) == InstanceStatus::Stopped,
{
    if !has_key(s, info.name) && path_is_dir {
        lemma_map_push(s, SlotView { key: info.name, instance: fresh_instance(info) });
    }
}

/// Every request the broker refuses leaves the registry as it was.
pub proof fn law_refusal_changes_nothing(
    s: Seq<SlotView>,
    t: Seq<SlotView>,
    op: IOperationTypes,
    alive: Seq<bool>,
    path_is_dir: bool,
    a: BrokerAction,
)
    requires
        distinct_keys(s),
        step_spec(s, t, op, alive, path_is_dir, a),
        a matches BrokerAction::Reply(r) && r is Err,
    ensures
        t == s,
{
    match op {
        IOperationTypes::Stop(name) => {
            if has_key(s, name@) {
                let x = key_index(s, name@);
                assert(s[x] == s[x]);
            }
        },
        _ => {},
    }
}

/// After a successful start the instance has a process and is no longer
/// counted as stopped by hand; a failed spawn changes nothing.
pub proof fn law_start_records_process(s: Seq<SlotView>, name: Seq<char>, spawned: Result<(), Seq<char>>)
    requires
        distinct_keys(s),
        has_key(s, name),
    ensures
        spawned is Ok ==> map_of(record_start_model(s, name, spawned)) == map_of(s).insert(name, started(lookup(s, name))),
        spawned is Err ==> record_start_model(s, name, spawned) == s,
        distinct_keys(record_start_model(s, name, spawned)),
{
    lemma_map_set(s, name, started(lookup(s, name)));
    lemma_set_distinct(s, name, started(lookup(s, name)));
}

/// An instance stopped on purpose (by a stop or a halt that went ahead) is
/// not restarted by the keep-running sweep, whatever was observed of its
/// process.
pub proof fn law_stopped_by_hand_stays_down(s: Seq<SlotView>, name: Seq<char>, alive: Seq<bool>, pid_present: bool)
    requires
        distinct_keys(s),
        alive.len() == s.len(),
        halt_model(s, name).1 is Ok || stop_model(s, name, pid_present).1 is Ok,
    ensures
        halt_model(s, name).1 is Ok ==> !resume_model(halt_model(s, name).0, alive, s.len() as int).contains(name),
        stop_model(s, name, pid_present).1 is Ok ==> !resume_model(stop_model(s, name, pid_present).0, alive, s.len() as int).contains(name),
{
    let x = key_index(s, name);
    assert(s[x] == s[x]);
    if halt_model(s, name).1 is Ok {
        let t = halt_model(s, name).0;
        lemma_set_distinct(s, name, stopped_by_hand(lookup(s, name)));
        lemma_key_index(t, x);
        lemma_resume_excludes(t, alive, s.len() as int, name);
    }
    if stop_model(s, name, pid_present).1 is Ok {
        let t = stop_model(s, name, pid_present).0;
        lemma_set_distinct(s, name, stopped_by_hand(lookup(s, name)));
        lemma_key_index(t, x);
        lemma_resume_excludes(t, alive, s.len() as int, name);
    }
}

/// The sweep names only entries that need a restart.
proof fn lemma_resume_excludes(s: Seq<SlotView>, alive: Seq<bool>, n: int, name: Seq<char>)
    requires
        distinct_keys(s),
        0 <= n <= s.len(),
        has_key(s, name),
        lookup(s, name).manually_stopped,
    ensures
        !resume_model(s, alive, n).contains(name),
    decreases n,
{
    if n > 0 {
        lemma_resume_excludes(s, alive, n - 1, name);
        let x = key_index(s, name);
        if s[n - 1].key == name {
            lemma_key_index(s, n - 1);
        }
        let r0 = resume_model(s, alive, n - 1);
        if needs_restart(s[n - 1].instance, alive[n - 1]) {
            assert(resume_model(s, alive, n) == r0.push(s[n - 1].key));
            assert forall|i: int| 0 <= i < r0.len() + 1 implies #[trigger] r0.push(s[n - 1].key)[i] != name by {
                if i < r0.len() {
                    assert(r0[i] != name);
                }
            }
        }
    }
}

/// Removing a stopped instance takes out the entry under the name its
/// description carries (the requested one, unless an update renamed it);
/// removing a running one is refused.
pub proof fn law_remove_drops_entry(s: Seq<SlotView>, name: Seq<char>, pid_present: bool)
    requires
        distinct_keys(s),
    ensures
        remove_model(s, name, pid_present).1 is Ok ==> map_of(remove_model(s, name, pid_present).0)
            == map_of(s).remove(lookup(s, name).info.name),
        remove_model(s, name, pid_present).1 is Ok && lookup(s, name).info.name == name
            ==> !map_of(remove_model(s, name, pid_present).0).contains_key(name),
        distinct_keys(remove_model(s, name, pid_present).0),
{
    if has_key(s, name) {
        lemma_map_remove(s, lookup(s, name).info.name);
    }
}

/// A successful update replaces the description under the same name and
/// keeps the rest of the instance's state; the set of names is unchanged.
pub proof fn law_update_replaces_info(s: Seq<SlotView>, name: Seq<char>, info: InstanceInfoView, pid_present: bool)
    requires
        distinct_keys(s),
    ensures
        update_model(s, name, info, pid_present).1 is Ok ==> map_of(update_model(s, name, info, pid_present).0)
            == map_of(s).insert(name, InstanceView { info: info, ..lookup(s, name) }),
        map_of(update_model(s, name, info, pid_present).0).dom() == map_of(s).dom(),
{
    if update_model(s, name, info, pid_present).1 is Ok {
        lemma_map_set(s, name, InstanceView { info: info, ..lookup(s, name) });
        let x = key_index(s, name);
        assert(s[x] == s[x]);
        assert(map_of(s).contains_key(name));
        assert(map_of(s).insert(name, InstanceView { info: info, ..lookup(s, name) }).dom() =~= map_of(s).dom());
    }
}

/// Loading a stored description registers it under its name as a fresh
/// instance, replacing whatever was kept there.
pub proof fn law_load_registers(s: Seq<SlotView>, info: InstanceInfoView)
    requires
        distinct_keys(s),
    ensures
        map_of(load_model(s, info)) == map_of(s).insert(info.name, fresh_instance(info)),
        distinct_keys(load_model(s, info)),
{
    if has_key(s, info.name) {
        lemma_map_set(s, info.name, fresh_instance(info));
        lemma_set_distinct(s, info.name, fresh_instance(info));
    } else {
        lemma_map_push(s, SlotView { key: info.name, instance: fresh_instance(info) });
        lemma_push_distinct(s, SlotView { key: info.name, instance: fresh_instance(info) });
    }
}

/// A stop or halt that goes ahead marks the instance as stopped by hand
/// and changes nothing else in the registry.
pub proof fn law_stop_and_halt_mark_instance(s: Seq<SlotView>, name: Seq<char>, pid_present: bool)
    requires
        distinct_keys(s),
    ensures
        halt_model(s, name).1 is Ok ==> map_of(halt_model(s, name).0) == map_of(s).insert(name, stopped_by_hand(lookup(s, name))),
        stop_model(s, name, pid_present).1 is Ok ==> map_of(stop_model(s, name, pid_present).0)
            == map_of(s).insert(name, stopped_by_hand(lookup(s, name))),
        distinct_keys(halt_model(s, name).0),
        distinct_keys(stop_model(s, name, pid_present).0),
{
    if has_key(s, name) {
        lemma_map_set(s, name, stopped_by_hand(lookup(s, name)));
        lemma_set_distinct(s, name, stopped_by_hand(lookup(s, name)));
    }
}

/// Every name the sweep gives among the first `n` entries is the name of
/// one of them that needs a restart, and every such entry is named.
proof fn lemma_resume_names_from(s: Seq<SlotView>, alive: Seq<bool>, n: int)
    requires
        distinct_keys(s),
        0 <= n <= s.len(),
    ensures
        forall|j: int|
            #![trigger resume_model(s, alive, n)[j]]
            0 <= j < resume_model(s, alive, n).len() ==> {
                &&& has_key(s, resume_model(s, alive, n)[j])
                &&& key_index(s, resume_model(s, alive, n)[j]) < n
                &&& needs_restart(
                    lookup(s, resume_model(s, alive, n)[j]),
                    alive[key_index(s, resume_model(s, alive, n)[j])],
                )
            },
        forall|i: int|
            0 <= i < n && needs_restart(s[i].instance, alive[i]) ==> #[trigger] resume_model(s, alive, n).contains(s[i].key),
    decreases n,
{
    if n > 0 {
        lemma_resume_names_from(s, alive, n - 1);
        let r0 = resume_model(s, alive, n - 1);
        lemma_key_index(s, n - 1);
        if needs_restart(s[n - 1].instance, alive[n - 1]) {
            let r = r0.push(s[n - 1].key);
            assert(resume_model(s, alive, n) == r);
            assert forall|j: int| #![trigger r[j]] 0 <= j < r.len() implies {
                &&& has_key(s, r[j])
                &&& key_index(s, r[j]) < n
                &&& needs_restart(lookup(s, r[j]), alive[key_index(s, r[j])])
            } by {
                if j < r0.len() {
                    assert(r[j] == r0[j]);
                }
            }
            assert forall|i: int| 0 <= i < n && needs_restart(s[i].instance, alive[i]) implies #[trigger] r.contains(s[i].key) by {
                if i < n - 1 {
                    assert(r0.contains(s[i].key));
                    let j = choose|j: int| 0 <= j < r0.len() && r0[j] == s[i].key;
                    assert(r[j] == s[i].key);
                } else {
                    assert(r[r0.len() as int] == s[i].key);
                }
            }
        } else {
            assert(resume_model(s, alive, n) == r0);
        }
    }
}

/// The keep-running sweep names exactly the registered instances whose
/// description asks for restarts, that have no live process (none attached,
/// or its id is gone), and that were not stopped by hand. An instance with
/// `auto_restart` off is never named, whatever its `auto_run`.
pub proof fn law_sweep_names_crashed_restartable(s: Seq<SlotView>, alive: Seq<bool>)
    requires
        distinct_keys(s),
        alive.len() == s.len(),
    ensures
        forall|k: Seq<char>| #[trigger] resume_model(s, alive, s.len() as int).contains(k) ==> {
            &&& has_key(s, k)
            &&& lookup(s, k).info.auto_restart
            &&& !lookup(s, k).manually_stopped
            &&& !(lookup(s, k).has_process && alive[key_index(s, k)])
        },
        forall|i: int|
            0 <= i < s.len() && s[i].instance.info.auto_restart && !s[i].instance.manually_stopped
                && !(s[i].instance.has_process && alive[i])
                ==> #[trigger] resume_model(s, alive, s.len() as int).contains(s[i].key),
{
    let r = resume_model(s, alive, s.len() as int);
    lemma_resume_names_from(s, alive, s.len() as int);
    assert forall|k: Seq<char>| #[trigger] r.contains(k) implies {
        &&& has_key(s, k)
        &&& lookup(s, k).info.auto_restart
        &&& !lookup(s, k).manually_stopped
        &&& !(lookup(s, k).has_process && alive[key_index(s, k)])
    } by {
        let j = choose|j: int| 0 <= j < r.len() && r[j] == k;
        assert(r[j] == k);
    }
    assert forall|i: int|
        0 <= i < s.len() && s[i].instance.info.auto_restart && !s[i].instance.manually_stopped
            && !(s[i].instance.has_process && alive[i]) implies #[trigger] r.contains(s[i].key) by {
        assert(needs_restart(s[i].instance, alive[i]));
    }
}

/// A graceful stop of a registered instance goes ahead exactly when its
/// process is alive, and then writes that instance's own stop command
/// followed by a newline; otherwise it is refused as already stopped.
pub proof fn law_stop_writes_own_stop_command(s: Seq<SlotView>, name: Seq<char>, pid_present: bool)
    requires
        distinct_keys(s),
    ensures
        !has_key(s, name) ==> stop_model(s, name, pid_present).1 == Err::<Seq<char>, Seq<char>>("Invalid instance name"@),
        has_key(s, name) && lookup(s, name).has_process && pid_present ==> stop_model(s, name, pid_present).1
            == Ok::<Seq<char>, Seq<char>>(lookup(s, name).info.stop_command.push('\n')),
        has_key(s, name) && !(lookup(s, name).has_process && pid_present) ==> stop_model(s, name, pid_present).1
            == Err::<Seq<char>, Seq<char>>("Instance is already stopped"@),
        forall|line: Seq<char>| stop_model(s, name, pid_present).1 == Ok::<Seq<char>, Seq<char>>(line)
            ==> line == lookup(s, name).info.stop_command.push('\n'),
{
}

/// Running a command depends only on the named instance: it goes ahead
/// exactly when that instance has a live process, and the line written is
/// the command followed by a newline.
pub proof fn law_execute_uses_named_instance(s: Seq<SlotView>, name: Seq<char>, command: Seq<char>, pid_present: bool)
    requires
        distinct_keys(s),
    ensures
        !has_key(s, name) ==> execute_model(s, name, command, pid_present) == Err::<Seq<char>, Seq<char>>("Invalid instance name"@),
        has_key(s, name) && lookup(s, name).has_process && pid_present
            ==> execute_model(s, name, command, pid_present) == Ok::<Seq<char>, Seq<char>>(command.push('\n')),
        has_key(s, name) && !(lookup(s, name).has_process && pid_present)
            ==> execute_model(s, name, command, pid_present) == Err::<Seq<char>, Seq<char>>("Instance is stopped"@),
{
}

/// Removing an instance whose process is alive is refused and changes
/// nothing; removing a registered instance without a live process goes
/// ahead.
pub proof fn law_remove_refuses_running(s: Seq<SlotView>, name: Seq<char>, pid_present: bool)
    requires
        distinct_keys(s),
    ensures
        has_key(s, name) && lookup(s, name).has_process && pid_present ==> remove_model(s, name, pid_present)
            == (s, Err::<(), Seq<char>>("Instance is still running, please stop it first!"@)),
        has_key(s, name) && !(lookup(s, name).has_process && pid_present) ==> remove_model(s, name, pid_present).1 is Ok,
        !has_key(s, name) ==> remove_model(s, name, pid_present) == (s, Err::<(), Seq<char>>("Invalid instance name"@)),
{
}

/// Starting an instance whose process is alive is refused; a registered
/// instance without a live process may be started; an unknown name is
/// refused.
pub proof fn law_start_refuses_running(s: Seq<SlotView>, name: Seq<char>, pid_present: bool)
    requires
        distinct_keys(s),
    ensures
        has_key(s, name) && lookup(s, name).has_process && pid_present
            ==> start_model(s, name, pid_present) == Err::<(), Seq<char>>("Instance is already running"@),
        has_key(s, name) && !(lookup(s, name).has_process && pid_present) ==> start_model(s, name, pid_present) is Ok,
        !has_key(s, name) ==> start_model(s, name, pid_present) == Err::<(), Seq<char>>("Invalid instance name"@),
        start_model(s, name, pid_present) is Ok ==> has_key(s, name) && !(lookup(s, name).has_process && pid_present),
{
}

} // verus!
