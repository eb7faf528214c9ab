//! The hooks of a process.

use vstd::prelude::*;

use crate::emulator::{HookData, HookId, HookKind, TableKind, Wrapper, SKIP_EXEC_HOOK};
use crate::hook::{HookRepr, HookTarget};
use crate::instance::Instance;
use crate::model::{GroupModel, RegistryModel};
use crate::qemu_hooks::get_qemu_hooks;
use crate::state::{HookState, HookTable};

verus! {

/// A hook to be run on the `QemuHooks` at `hooks`, with the arguments of the
/// callback that fired.
#[derive(PartialEq, Eq, Debug)]
pub struct HookCall<P, C, A> {
    pub hooks: P,
    pub target: HookTarget<P, C>,
    pub args: A,
}

/// All hooks of a process. `P` and `C` are functions and closures whose
/// signatures have been erased.
pub struct HookRegistry<P, C> {
    generic: Vec<(HookId, C)>,
    backdoor: Vec<(HookId, C)>,
    pre_syscall: Vec<(HookId, C)>,
    post_syscall: Vec<(HookId, C)>,
    new_thread: Vec<(HookId, C)>,
    edge: HookTable<P, C, 1>,
    block: HookTable<P, C, 1>,
    read: HookTable<P, C, 5>,
    write: HookTable<P, C, 5>,
    compare: HookTable<P, C, 4>,
    crash: Vec<HookRepr<P, C>>,
}

impl<P, C> View for HookRegistry<P, C> {
    type V = RegistryModel<P, C>;

    closed spec fn view(&self) -> RegistryModel<P, C> {
        RegistryModel {
            generic: self.generic@,
            backdoor: self.backdoor@,
            pre_syscall: self.pre_syscall@,
            post_syscall: self.post_syscall@,
            new_thread: self.new_thread@,
            edge: self.edge@,
            block: self.block@,
            read: self.read@,
            write: self.write@,
            compare: self.compare@,
            crash: self.crash@,
        }
    }
}

impl<P, C> HookRegistry<P, C> {
    /// Every slot fits in a machine word.
    pub proof fn law_slots_fit(self)
        ensures
            forall|kind: HookKind| #[trigger] self@.closures(kind).len() <= usize::MAX,
            forall|kind: TableKind| #[trigger] self@.groups(kind).len() <= usize::MAX,
    {
        self.edge.lemma_slots_fit();
        self.block.lemma_slots_fit();
        self.read.lemma_slots_fit();
        self.write.lemma_slots_fit();
        self.compare.lemma_slots_fit();
        assert forall|kind: HookKind| #[trigger] self@.closures(kind).len() <= usize::MAX by {
            assert(self.generic@.len() == self.generic.len());
            assert(self.backdoor@.len() == self.backdoor.len());
            assert(self.pre_syscall@.len() == self.pre_syscall.len());
            assert(self.post_syscall@.len() == self.post_syscall.len());
            assert(self.new_thread@.len() == self.new_thread.len());
        }
    }
}

impl<P: Copy, C: Copy> HookRegistry<P, C> {
    /// A process without hooks.
    pub fn new() -> (registry: Self)
        ensures
            registry@ == RegistryModel::<P, C>::empty(),
            registry@.wf(),
    {
        let registry = HookRegistry {
            generic: Vec::new(),
            backdoor: Vec::new(),
            pre_syscall: Vec::new(),
            post_syscall: Vec::new(),
            new_thread: Vec::new(),
            edge: HookTable::new(),
            block: HookTable::new(),
            read: HookTable::new(),
            write: HookTable::new(),
            compare: HookTable::new(),
            crash: Vec::new(),
        };
        assert(registry@ =~= RegistryModel::<P, C>::empty());
        registry
    }

    /// Keeps a closure that the emulator does not know yet, and returns its slot.
    pub(crate) fn insert_closure(&mut self, kind: HookKind, closure: C) -> (slot: usize)
        ensures
            slot == old(self)@.closures(kind).len(),
            final(self)@ == old(self)@.push_closure(kind, HookId(0), closure),
    {
        match kind {
            HookKind::Generic => {
                self.generic.push((HookId(0), closure));
                self.generic.len() - 1
            },
            HookKind::Backdoor => {
                self.backdoor.push((HookId(0), closure));
                self.backdoor.len() - 1
            },
            HookKind::PreSyscall => {
                self.pre_syscall.push((HookId(0), closure));
                self.pre_syscall.len() - 1
            },
            HookKind::PostSyscall => {
                self.post_syscall.push((HookId(0), closure));
                self.post_syscall.len() - 1
            },
            HookKind::NewThread => {
                self.new_thread.push((HookId(0), closure));
                self.new_thread.len() - 1
            },
        }
    }

    /// Records the id that the emulator gave the closure in `slot`.
    pub(crate) fn set_closure_id(&mut self, kind: HookKind, slot: usize, id: HookId)
        requires
            slot < old(self)@.closures(kind).len(),
        ensures
            final(self)@ == old(self)@.with_closures(
                kind,
                old(self)@.closures(kind).update(
                    slot as int,
                    (id, old(self)@.closures(kind)[slot as int].1),
                ),
            ),
    {
        match kind {
            HookKind::Generic => {
                self.generic[slot].0 = id;
            },
            HookKind::Backdoor => {
                self.backdoor[slot].0 = id;
            },
            HookKind::PreSyscall => {
                self.pre_syscall[slot].0 = id;
            },
            HookKind::PostSyscall => {
                self.post_syscall[slot].0 = id;
            },
            HookKind::NewThread => {
                self.new_thread[slot].0 = id;
            },
        }
    }

    /// The closure in `slot`, with its id.
    pub fn closure(&self, kind: HookKind, slot: usize) -> (entry: Option<(HookId, C)>)
        ensures
            entry == (if slot < self@.closures(kind).len() {
                Some(self@.closures(kind)[slot as int])
            } else {
                None
            }),
    {
        let closures = match kind {
            HookKind::Generic => &self.generic,
            HookKind::Backdoor => &self.backdoor,
            HookKind::PreSyscall => &self.pre_syscall,
            HookKind::PostSyscall => &self.post_syscall,
            HookKind::NewThread => &self.new_thread,
        };
        if slot < closures.len() {
            Some((closures[slot].0, closures[slot].1))
        } else {
            None
        }
    }

    /// Keeps the hooks of an edge that the emulator does not know yet, and
    /// returns their slot.
    pub(crate) fn insert_edge(&mut self, state: HookState<P, C, 1>) -> (slot: usize)
        ensures
            slot == old(self)@.groups(TableKind::Edge).len(),
            final(self)@ == old(self)@.push_group(TableKind::Edge, state@),
    {
        self.edge.insert(state)
    }

    /// As `insert_edge`, for a block.
    pub(crate) fn insert_block(&mut self, state: HookState<P, C, 1>) -> (slot: usize)
        ensures
            slot == old(self)@.groups(TableKind::Block).len(),
            final(self)@ == old(self)@.push_group(TableKind::Block, state@),
    {
        self.block.insert(state)
    }

    /// As `insert_edge`, for reads.
    pub(crate) fn insert_read(&mut self, state: HookState<P, C, 5>) -> (slot: usize)
        ensures
            slot == old(self)@.groups(TableKind::Read).len(),
            final(self)@ == old(self)@.push_group(TableKind::Read, state@),
    {
        self.read.insert(state)
    }

    /// As `insert_edge`, for writes.
    pub(crate) fn insert_write(&mut self, state: HookState<P, C, 5>) -> (slot: usize)
        ensures
            slot == old(self)@.groups(TableKind::Write).len(),
            final(self)@ == old(self)@.push_group(TableKind::Write, state@),
    {
        self.write.insert(state)
    }

    /// As `insert_edge`, for comparisons.
    pub(crate) fn insert_compare(&mut self, state: HookState<P, C, 4>) -> (slot: usize)
        ensures
            slot == old(self)@.groups(TableKind::Compare).len(),
            final(self)@ == old(self)@.push_group(TableKind::Compare, state@),
    {
        self.compare.insert(state)
    }

    /// Records the id that the emulator gave the group in `slot`.
    pub(crate) fn set_group_id(&mut self, kind: TableKind, slot: usize, id: HookId)
        requires
            slot < old(self)@.groups(kind).len(),
        ensures
            final(self)@ == old(self)@.with_groups(
                kind,
                old(self)@.groups(kind).update(
                    slot as int,
                    old(self)@.groups(kind)[slot as int].with_id(id),
                ),
            ),
    {
        match kind {
            TableKind::Edge => self.edge.set_id(slot, id),
            TableKind::Block => self.block.set_id(slot, id),
            TableKind::Read => self.read.set_id(slot, id),
            TableKind::Write => self.write.set_id(slot, id),
            TableKind::Compare => self.compare.set_id(slot, id),
        }
    }

    /// The id that the emulator gave the group in `slot`.
    pub fn group_id(&self, kind: TableKind, slot: usize) -> (id: Option<HookId>)
        ensures
            id == (if slot < self@.groups(kind).len() {
                Some(self@.groups(kind)[slot as int].id)
            } else {
                None
            }),
    {
        match kind {
            TableKind::Edge => self.edge.id(slot),
            TableKind::Block => self.block.id(slot),
            TableKind::Read => self.read.id(slot),
            TableKind::Write => self.write.id(slot),
            TableKind::Compare => self.compare.id(slot),
        }
    }

    /// Keeps a crash hook.
    pub(crate) fn insert_crash(&mut self, hook: HookRepr<P, C>)
        requires
            !(hook is Empty),
        ensures
            final(self)@ == old(self)@.push_crash(hook),
            final(self)@.follows(old(self)@),
    {
        self.crash.push(hook);
        proof {
            crate::model::lemma_push_crash_follows(old(self)@, hook);
        }
    }

    /// The hook that `wrapper` runs when the emulator hands it `data`.
    fn target(&self, wrapper: Wrapper, data: HookData<P>) -> (target: Option<HookTarget<P, C>>)
        ensures
            target == self@.target(wrapper, data),
    {
        match (wrapper, data) {
            (Wrapper::Func(_), HookData::Function(function)) => Some(
                HookTarget::Function(function),
            ),
            (Wrapper::Closure(kind), HookData::Slot(slot)) => match self.closure(kind, slot) {
                Some((_, closure)) => Some(HookTarget::Closure(closure)),
                None => None,
            },
            (Wrapper::Gen(kind), HookData::Slot(slot)) => match kind {
                TableKind::Edge => self.edge.gen(slot).target(),
                TableKind::Block => self.block.gen(slot).target(),
                TableKind::Read => self.read.gen(slot).target(),
                TableKind::Write => self.write.gen(slot).target(),
                TableKind::Compare => self.compare.gen(slot).target(),
            },
            (Wrapper::PostGen(kind), HookData::Slot(slot)) => match kind {
                TableKind::Edge => self.edge.post_gen(slot).target(),
                TableKind::Block => self.block.post_gen(slot).target(),
                TableKind::Read => self.read.post_gen(slot).target(),
                TableKind::Write => self.write.post_gen(slot).target(),
                TableKind::Compare => self.compare.post_gen(slot).target(),
            },
            (Wrapper::Exec(kind, index), HookData::Slot(slot)) => match kind {
                TableKind::Edge => self.edge.execution(slot, index).target(),
                TableKind::Block => self.block.execution(slot, index).target(),
                TableKind::Read => self.read.execution(slot, index).target(),
                TableKind::Write => self.write.execution(slot, index).target(),
                TableKind::Compare => self.compare.execution(slot, index).target(),
            },
            _ => None,
        }
    }

    /// The call to make when the emulator calls `wrapper` with `data` and
    /// `args`, if there is one to make. A hook can only run on a `QemuHooks`
    /// that is ready for it.
    pub fn hook_wrapper<A>(
        &self,
        instance: &Instance<P>,
        wrapper: Wrapper,
        data: HookData<P>,
        args: A,
    ) -> (call: Option<HookCall<P, C, A>>)
        requires
            instance@.place is Some,
        ensures
            call == self@.call(instance@.place->0, wrapper, data, args),
    {
        let hooks = get_qemu_hooks(instance);
        match self.target(wrapper, data) {
            Some(target) => Some(HookCall { hooks, target, args }),
            None => None,
        }
    }

    /// The calls to make, in order, when the guest dies of `target_sig`.
    pub fn crash_hook_wrapper(&self, instance: &Instance<P>, target_sig: i32) -> (calls: Vec<
        HookCall<P, C, i32>,
    >)
        requires
            instance@.place is Some,
        ensures
            calls@ == self@.crash_calls(instance@.place->0, target_sig),
    {
        let hooks = get_qemu_hooks(instance);
        let mut calls: Vec<HookCall<P, C, i32>> = Vec::new();
        for i in 0..self.crash.len()
            invariant
                calls@ == crate::model::crash_calls(self.crash@.take(i as int), hooks, target_sig),
        {
            assert(self.crash@.take(i + 1).drop_last() =~= self.crash@.take(i as int));
            if let Some(target) = self.crash[i].target() {
                calls.push(HookCall { hooks, target, args: target_sig });
            }
        }
        assert(self.crash@.take(self.crash@.len() as int) =~= self.crash@);
        calls
    }
}

/// The answer of a generation wrapper to the emulator, where `outcome` is what
/// the hook returned, if there was one to run.
pub open spec fn spec_gen_hook_id(outcome: Option<Option<u64>>) -> u64 {
    match outcome {
        Some(Some(id)) => id,
        Some(None) => SKIP_EXEC_HOOK,
        None => 0,
    }
}

/// What a generation wrapper answers the emulator. `outcome` is what the hook
/// returned, if there was one to run: a hook that returns no id asks for no
/// execution hook; without a hook the answer is 0.
pub fn gen_hook_id(outcome: Option<Option<u64>>) -> (id: u64)
    ensures
        id == spec_gen_hook_id(outcome),
{
    match outcome {
        Some(Some(id)) => id,
        Some(None) => SKIP_EXEC_HOOK,
        None => 0,
    }
}

} // verus!
