//! Groups of hooks, and tables of groups.

use vstd::prelude::*;

use crate::emulator::HookId;
use crate::hook::HookRepr;
use crate::model::GroupModel;

verus! {

/// A group of hooks that the emulator knows by one id: a generation hook, a
/// post-generation hook and `N` execution hooks.
pub struct HookState<P, C, const N: usize> {
    id: HookId,
    gen: HookRepr<P, C>,
    post_gen: HookRepr<P, C>,
    execs: [HookRepr<P, C>; N],
}

impl<P, C, const N: usize> View for HookState<P, C, N> {
    type V = GroupModel<P, C>;

    closed spec fn view(&self) -> GroupModel<P, C> {
        GroupModel { id: self.id, gen: self.gen, post_gen: self.post_gen, execs: self.execs@ }
    }
}

impl<P: Copy, C: Copy, const N: usize> HookState<P, C, N> {
    /// A group that the emulator does not know yet.
    pub fn new(gen: HookRepr<P, C>, post_gen: HookRepr<P, C>, execs: [HookRepr<P, C>; N]) -> (state:
        Self)
        ensures
            state@ == (GroupModel { id: HookId(0), gen, post_gen, execs: execs@ }),
    {
        HookState { id: HookId(0), gen, post_gen, execs }
    }

    /// The id under which the emulator knows the group.
    pub fn id(&self) -> (id: HookId)
        ensures
            id == self@.id,
    {
        self.id
    }

    /// The generation hook.
    pub fn gen(&self) -> (hook: HookRepr<P, C>)
        ensures
            hook == self@.gen,
    {
        self.gen
    }

    /// The post-generation hook.
    pub fn post_gen(&self) -> (hook: HookRepr<P, C>)
        ensures
            hook == self@.post_gen,
    {
        self.post_gen
    }

    /// The execution hook number `index`; nothing beyond the last.
    pub fn execution(&self, index: usize) -> (hook: HookRepr<P, C>)
        ensures
            hook == self@.execution(index),
    {
        if index < N {
            self.execs[index]
        } else {
            HookRepr::Empty
        }
    }
}

/// Groups in the order in which they came. A group's place in the table, its
/// slot, never changes.
pub(crate) struct HookTable<P, C, const N: usize> {
    entries: Vec<HookState<P, C, N>>,
}

impl<P, C, const N: usize> View for HookTable<P, C, N> {
    type V = Seq<GroupModel<P, C>>;

    closed spec fn view(&self) -> Seq<GroupModel<P, C>> {
        self.entries@.map_values(|entry: HookState<P, C, N>| entry@)
    }
}

impl<P, C, const N: usize> HookTable<P, C, N> {
    /// Every slot of a table fits in a machine word.
    pub(crate) proof fn lemma_slots_fit(self)
        ensures
            self@.len() <= usize::MAX,
    {
        assert(self@.len() == self.entries.len());
    }
}

impl<P: Copy, C: Copy, const N: usize> HookTable<P, C, N> {
    pub(crate) fn new() -> (table: Self)
        ensures
            table@ == Seq::<GroupModel<P, C>>::empty(),
    {
        let table = HookTable { entries: Vec::new() };
        assert(table@ =~= Seq::<GroupModel<P, C>>::empty());
        table
    }

    /// Appends a group and returns its slot.
    pub(crate) fn insert(&mut self, state: HookState<P, C, N>) -> (slot: usize)
        ensures
            slot == old(self)@.len(),
            final(self)@ == old(self)@.push(state@),
    {
        let slot: usize = self.entries.len();
        self.entries.push(state);
        assert(self@ =~= old(self)@.push(state@));
        slot
    }

    /// Records the id that the emulator gave the group in `slot`.
    pub(crate) fn set_id(&mut self, slot: usize, id: HookId)
        requires
            slot < old(self)@.len(),
        ensures
            final(self)@ == old(self)@.update(slot as int, old(self)@[slot as int].with_id(id)),
    {
        self.entries[slot].id = id;
        assert(self@ =~= old(self)@.update(slot as int, old(self)@[slot as int].with_id(id)));
    }

    /// The id of the group in `slot`.
    pub(crate) fn id(&self, slot: usize) -> (id: Option<HookId>)
        ensures
            id == (if slot < self@.len() {
                Some(self@[slot as int].id)
            } else {
                None
            }),
    {
        if slot < self.entries.len() {
            Some(self.entries[slot].id())
        } else {
            None
        }
    }

    /// The generation hook of the group in `slot`; nothing beyond the last.
    pub(crate) fn gen(&self, slot: usize) -> (hook: HookRepr<P, C>)
        ensures
            hook == (if slot < self@.len() {
                self@[slot as int].gen
            } else {
                HookRepr::Empty
            }),
    {
        if slot < self.entries.len() {
            self.entries[slot].gen()
        } else {
            HookRepr::Empty
        }
    }

    /// The post-generation hook of the group in `slot`; nothing beyond the last.
    pub(crate) fn post_gen(&self, slot: usize) -> (hook: HookRepr<P, C>)
        ensures
            hook == (if slot < self@.len() {
                self@[slot as int].post_gen
            } else {
                HookRepr::Empty
            }),
    {
        if slot < self.entries.len() {
            self.entries[slot].post_gen()
        } else {
            HookRepr::Empty
        }
    }

    /// An execution hook of the group in `slot`; nothing beyond the last.
    pub(crate) fn execution(&self, slot: usize, index: usize) -> (hook: HookRepr<P, C>)
        ensures
            hook == (if slot < self@.len() {
                self@[slot as int].execution(index)
            } else {
                HookRepr::Empty
            }),
    {
        if slot < self.entries.len() {
            self.entries[slot].execution(index)
        } else {
            HookRepr::Empty
        }
    }
}

} // verus!
