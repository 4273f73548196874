use crate::instance::{Instance, InstanceView};
use vstd::prelude::*;

verus! {

/// One entry of the registry: the name it is kept under and the instance.
pub struct SlotView {
    pub key: Seq<char>,
    pub instance: InstanceView,
}

struct Slot {
    key: String,
    instance: Instance,
}

impl View for Slot {
    type V = SlotView;

    closed spec fn view(&self) -> SlotView {
        SlotView { key: self.key@, instance: self.instance@ }
    }
}

/// The registry of managed instances, keyed by name. Entries keep the order
/// in which their names were first registered.
pub struct InstanceMap {
    slots: Vec<Slot>,
}

pub open spec fn has_key(s: Seq<SlotView>, k: Seq<char>) -> bool {
    exists|i: int| #![trigger s[i]] 0 <= i < s.len() && s[i].key == k
}

pub open spec fn key_index(s: Seq<SlotView>, k: Seq<char>) -> int {
    choose|i: int| #![trigger s[i]] 0 <= i < s.len() && s[i].key == k
}

pub open spec fn distinct_keys(s: Seq<SlotView>) -> bool {
    forall|i: int, j: int|
        #![trigger s[i], s[j]]
        0 <= i < s.len() && 0 <= j < s.len() && s[i].key == s[j].key ==> i == j
}

/// The instance kept under a name that is registered.
pub open spec fn lookup(s: Seq<SlotView>, k: Seq<char>) -> InstanceView {
    s[key_index(s, k)].instance
}

/// The registry as a map from names to instances.
pub open spec fn map_of(s: Seq<SlotView>) -> Map<Seq<char>, InstanceView> {
    Map::new(|k: Seq<char>| has_key(s, k), |k: Seq<char>| lookup(s, k))
}

pub proof fn lemma_key_index(s: Seq<SlotView>, i: int)
    requires
        distinct_keys(s),
        0 <= i < s.len(),
    ensures
        has_key(s, s[i].key),
        key_index(s, s[i].key) == i,
        lookup(s, s[i].key) == s[i].instance,
{
    assert(s[i] == s[i]);
}

pub proof fn lemma_has_key_index(s: Seq<SlotView>, k: Seq<char>)
    requires
        has_key(s, k),
    ensures
        0 <= key_index(s, k) < s.len(),
        s[key_index(s, k)].key == k,
{
}

impl View for InstanceMap {
    type V = Map<Seq<char>, InstanceView>;

    open spec fn view(&self) -> Map<Seq<char>, InstanceView> {
        map_of(self.registry())
    }
}

impl InstanceMap {
    /// The entries in order.
    pub closed spec fn registry(&self) -> Seq<SlotView> {
        self.slots@.map_values(|s: Slot| s@)
    }

    /// No two entries share a name.
    pub open spec fn wf(&self) -> bool {
        distinct_keys(self.registry())
    }

    pub fn new() -> (m: Self)
        ensures
            m.wf(),
            m.registry() == Seq::<SlotView>::empty(),
    {
        let m = InstanceMap { slots: Vec::new() };
        assert(m.registry() =~= Seq::<SlotView>::empty());
        m
    }

    pub fn len(&self) -> (n: usize)
        ensures
            n == self.registry().len(),
    {
        self.slots.len()
    }

    /// The name the `i`-th entry is kept under.
    pub fn key_at(&self, i: usize) -> (k: &String)
        requires
            i < self.registry().len(),
        ensures
            k@ == self.registry()[i as int].key,
    {
        &self.slots[i].key
    }

    /// The `i`-th instance.
    pub fn instance_at(&self, i: usize) -> (inst: &Instance)
        requires
            i < self.registry().len(),
        ensures
            inst@ == self.registry()[i as int].instance,
    {
        &self.slots[i].instance
    }

    /// Where a name is registered, if it is.
    pub fn find(&self, name: &String) -> (r: Option<usize>)
        requires
            self.wf(),
        ensures
            match r {
                Some(i) => has_key(self.registry(), name@) && i == key_index(self.registry(), name@),
                None => !has_key(self.registry(), name@),
            },
    {
        let mut i: usize = 0;
        while i < self.slots.len()
            invariant
                self.wf(),
                i <= self.slots@.len(),
                forall|j: int| 0 <= j < i ==> #[trigger] self.registry()[j].key != name@,
            decreases self.slots@.len() - i,
        {
            if self.slots[i].key == *name {
                proof {
                    assert(self.registry()[i as int] == self.slots@[i as int]@);
                    lemma_key_index(self.registry(), i as int);
                }
                return Some(i);
            }
            assert(self.registry()[i as int] == self.slots@[i as int]@);
            i = i + 1;
        }
        None
    }

    pub fn contains_key(&self, name: &String) -> (b: bool)
        requires
            self.wf(),
        ensures
            b == has_key(self.registry(), name@),
    {
        self.find(name).is_some()
    }

    pub(crate) fn push_slot(&mut self, key: String, instance: Instance)
        ensures
            final(self).registry() == old(self).registry().push(SlotView { key: key@, instance: instance@ }),
    {
        let ghost k = key@;
        let ghost v = instance@;
        self.slots.push(Slot { key, instance });
        assert(self.registry() =~= old(self).registry().push(SlotView { key: k, instance: v }));
    }

    fn take_slot(&mut self, i: usize) -> (slot: Slot)
        requires
            i < old(self).registry().len(),
        ensures
            slot@ == old(self).registry()[i as int],
            final(self).registry() == old(self).registry().remove(i as int),
    {
        let slot = self.slots.remove(i);
        assert(self.registry() =~= old(self).registry().remove(i as int));
        slot
    }

    fn put_slot(&mut self, i: usize, slot: Slot)
        requires
            i <= old(self).registry().len(),
        ensures
            final(self).registry() == old(self).registry().insert(i as int, slot@),
    {
        let ghost v = slot@;
        self.slots.insert(i, slot);
        assert(self.registry() =~= old(self).registry().insert(i as int, v));
    }
}

impl InstanceMap {
    /// Takes the `i`-th entry out.
    pub(crate) fn remove_at(&mut self, i: usize) -> (r: (String, Instance))
        requires
            i < old(self).registry().len(),
        ensures
            r.0@ == old(self).registry()[i as int].key,
            r.1@ == old(self).registry()[i as int].instance,
            final(self).registry() == old(self).registry().remove(i as int),
    {
        let slot = self.take_slot(i);
        (slot.key, slot.instance)
    }

    /// Puts an entry in at position `i`.
    pub(crate) fn insert_at(&mut self, i: usize, key: String, instance: Instance)
        requires
            i <= old(self).registry().len(),
        ensures
            final(self).registry() == old(self).registry().insert(i as int, SlotView { key: key@, instance: instance@ }),
    {
        self.put_slot(i, Slot { key, instance });
    }
}

/// Taking an entry out and putting it back changed at the same place is
/// an update of that place.
pub proof fn lemma_remove_insert(s: Seq<SlotView>, i: int, v: SlotView)
    requires
        0 <= i < s.len(),
    ensures
        s.remove(i).insert(i, v) == s.update(i, v),
{
    assert(s.remove(i).insert(i, v) =~= s.update(i, v));
}

} // verus!
