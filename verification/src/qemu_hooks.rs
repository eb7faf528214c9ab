//! Installing hooks in the emulator.

use vstd::prelude::*;

use crate::emulator::{
    AddAccessHooks, AddBlockHooks, AddCompareHooks, AddEdgeHooks, AddHook, Callback, GuestAddr,
    HookData, HookId, HookKind, SetHook, TableKind, Wrapper,
};
use crate::hook::{get_raw_hook, hook_to_repr, Hook, HookRepr};
use crate::instance::{Instance, Permit, Ready};
use crate::model::{GroupModel, RegistryModel};
use crate::registry::HookRegistry;
use crate::state::HookState;

verus! {

/// An emulator with the helpers that watch it. Of the functions below, those
/// that install a hook hand the emulator a request by their last argument, and
/// return the id with which it answers.
#[derive(Debug)]
pub struct QemuHooks<QT, E> {
    helpers: QT,
    emulator: E,
}

/// Where the one `QemuHooks` of the process is. A hook may only run once it is
/// ready.
pub fn get_qemu_hooks<P: Copy>(instance: &Instance<P>) -> (hooks: P)
    requires
        instance@.place is Some,
    ensures
        Some(hooks) == instance@.place,
{
    instance.place().unwrap()
}

impl<QT, E> QemuHooks<QT, E> {
    pub closed spec fn spec_emulator(&self) -> &E {
        &self.emulator
    }

    pub closed spec fn spec_helpers(&self) -> &QT {
        &self.helpers
    }

    /// Makes the one `QemuHooks` of the process: claims it, sets it up, and
    /// publishes it at the place that `address_of` gives.
    pub fn new<P: Copy, F, A, I, L>(
        instance: &mut Instance<P>,
        emulator: E,
        helpers: QT,
        flush_jit: A,
        init_hooks_all: I,
        address_of: L,
    ) -> (hooks: Box<Self>) where A: FnOnce(&E) -> F, I: FnOnce(&Self, F), L: FnOnce(&Self) -> P
        requires
            !old(instance)@.is_initialized,
            call_requires(flush_jit, (&emulator,)),
            forall|hooks: Self, flushed: F|
                made_of(hooks, emulator, helpers) && call_ensures(flush_jit, (&emulator,), flushed)
                    ==> #[trigger] call_requires(init_hooks_all, (&hooks, flushed)),
            forall|hooks: Self|
                made_of(hooks, emulator, helpers) ==> #[trigger] call_requires(
                    address_of,
                    (&hooks,),
                ),
        ensures
            made_of(*hooks, emulator, helpers),
            exists|flushed: F| #[trigger]
                flushed_then_installed(*hooks, flush_jit, flushed, init_hooks_all),
            final(instance)@.place is Some,
            call_ensures(address_of, (&*hooks,), final(instance)@.place->0),
            final(instance)@.is_initialized,
            final(instance)@.wf(),
            old(instance)@.wf() ==> final(instance)@.follows(old(instance)@),
    {
        let permit = instance.claim().unwrap();
        let (hooks, ready) = Self::set_up(
            permit,
            emulator,
            helpers,
            flush_jit,
            init_hooks_all,
            address_of,
        );
        instance.publish(ready);
        hooks
    }

    /// Sets up the one `QemuHooks` of the process, once it has been claimed.
    /// First translated code is flushed, so that it is translated again with the
    /// hooks. Then the helpers install their hooks on the new `QemuHooks`:
    /// `init_hooks_all` is handed what the flush returned. Only then is the
    /// `QemuHooks` ready to be published.
    pub fn set_up<P: Copy, F, A, I, L>(
        permit: Permit,
        emulator: E,
        helpers: QT,
        flush_jit: A,
        init_hooks_all: I,
        address_of: L,
    ) -> (made: (Box<Self>, Ready<P>)) where
        A: FnOnce(&E) -> F,
        I: FnOnce(&Self, F),
        L: FnOnce(&Self) -> P,

        requires
            call_requires(flush_jit, (&emulator,)),
            forall|hooks: Self, flushed: F|
                made_of(hooks, emulator, helpers) && call_ensures(flush_jit, (&emulator,), flushed)
                    ==> #[trigger] call_requires(init_hooks_all, (&hooks, flushed)),
            forall|hooks: Self|
                made_of(hooks, emulator, helpers) ==> #[trigger] call_requires(
                    address_of,
                    (&hooks,),
                ),
        ensures
            made_of(*made.0, emulator, helpers),
            exists|flushed: F| #[trigger]
                flushed_then_installed(*made.0, flush_jit, flushed, init_hooks_all),
            call_ensures(address_of, (&*made.0,), made.1@),
    {
        let flushed = flush_jit(&emulator);
        let ghost result = flushed;
        let hooks = Box::new(QemuHooks { helpers, emulator });
        init_hooks_all(&*hooks, flushed);
        let place = address_of(&*hooks);
        assert(flushed_then_installed(*hooks, flush_jit, result, init_hooks_all));
        (hooks, Ready::at(place))
    }

    /// The emulator.
    #[verifier::when_used_as_spec(spec_emulator)]
    pub fn emulator(&self) -> (emulator: &E)
        ensures
            emulator == self.emulator(),
    {
        &self.emulator
    }

    /// The helpers.
    #[verifier::when_used_as_spec(spec_helpers)]
    pub fn helpers(&self) -> (helpers: &QT)
        ensures
            helpers == self.helpers(),
    {
        &self.helpers
    }

    /// The helpers, to be changed.
    pub fn helpers_mut(&mut self) -> (helpers: &mut QT)
        ensures
            *helpers == *old(self).helpers(),
            *final(self).helpers() == *final(helpers),
            *final(self).emulator() == *old(self).emulator(),
    {
        &mut self.helpers
    }

    /// Installs hooks on the edges between blocks: `generation_hook` runs when
    /// an edge is translated, `execution_hook` when it is taken.
    pub fn edges<P: Copy, C: Copy, G: Clone, X: Clone, A>(
        &self,
        registry: &mut HookRegistry<P, C>,
        generation_hook: Hook<P, C, G>,
        execution_hook: Hook<P, C, X>,
        add_edge_hooks: A,
    ) -> (id: HookId) where A: FnOnce(&E, AddEdgeHooks<P, G, X>) -> HookId
        requires
            call_requires(
                add_edge_hooks,
                (
                    self.emulator(),
                    edges_request(
                        old(registry)@,
                        generation_hook,
                        execution_hook,
                    ),
                ),
            ),
        ensures
            call_ensures(
                add_edge_hooks,
                (
                    self.emulator(),
                    edges_request(
                        old(registry)@,
                        generation_hook,
                        execution_hook,
                    ),
                ),
                id,
            ),
            old(registry)@.groups(TableKind::Edge).len() <= usize::MAX,
            final(registry)@ == old(registry)@.push_group(
                TableKind::Edge,
                edges_group(
                    generation_hook,
                    execution_hook,
                    id,
                ),
            ),
            final(registry)@.follows(old(registry)@),
    {
        let execs = [hook_to_repr(&execution_hook)];
        let state = HookState::new(hook_to_repr(&generation_hook), HookRepr::Empty, execs);
        let ghost group = state@;
        let slot: usize = registry.insert_edge(state);
        let id = add_edge_hooks(
            &self.emulator,
            AddEdgeHooks {
                data: HookData::Slot(slot),
                gen: get_raw_hook(generation_hook, Wrapper::Gen(TableKind::Edge)),
                execution: get_raw_hook(execution_hook, Wrapper::Exec(TableKind::Edge, 0)),
            },
        );
        registry.set_group_id(TableKind::Edge, slot, id);
        proof {
            assert(execs@ =~= seq![execution_hook.spec_repr()]);
            crate::model::lemma_install_group(old(registry)@, TableKind::Edge, group, id);
        }
        id
    }

    /// Installs hooks on blocks: `generation_hook` runs when a block is
    /// translated, `post_generation_hook` afterwards, and `execution_hook` when
    /// it is run.
    pub fn blocks<P: Copy, C: Copy, G: Clone, B: Clone, X: Clone, A>(
        &self,
        registry: &mut HookRegistry<P, C>,
        generation_hook: Hook<P, C, G>,
        post_generation_hook: Hook<P, C, B>,
        execution_hook: Hook<P, C, X>,
        add_block_hooks: A,
    ) -> (id: HookId) where A: FnOnce(&E, AddBlockHooks<P, G, B, X>) -> HookId
        requires
            call_requires(
                add_block_hooks,
                (
                    self.emulator(),
                    blocks_request(
                        old(registry)@,
                        generation_hook,
                        post_generation_hook,
                        execution_hook,
                    ),
                ),
            ),
        ensures
            call_ensures(
                add_block_hooks,
                (
                    self.emulator(),
                    blocks_request(
                        old(registry)@,
                        generation_hook,
                        post_generation_hook,
                        execution_hook,
                    ),
                ),
                id,
            ),
            old(registry)@.groups(TableKind::Block).len() <= usize::MAX,
            final(registry)@ == old(registry)@.push_group(
                TableKind::Block,
                blocks_group(
                    generation_hook,
                    post_generation_hook,
                    execution_hook,
                    id,
                ),
            ),
            final(registry)@.follows(old(registry)@),
    {
        let execs = [hook_to_repr(&execution_hook)];
        let state = HookState::new(
            hook_to_repr(&generation_hook),
            hook_to_repr(&post_generation_hook),
            execs,
        );
        let ghost group = state@;
        let slot: usize = registry.insert_block(state);
        let id = add_block_hooks(
            &self.emulator,
            AddBlockHooks {
                data: HookData::Slot(slot),
                gen: get_raw_hook(generation_hook, Wrapper::Gen(TableKind::Block)),
                post_gen: get_raw_hook(post_generation_hook, Wrapper::PostGen(TableKind::Block)),
                execution: get_raw_hook(execution_hook, Wrapper::Exec(TableKind::Block, 0)),
            },
        );
        registry.set_group_id(TableKind::Block, slot, id);
        proof {
            assert(execs@ =~= seq![execution_hook.spec_repr()]);
            crate::model::lemma_install_group(old(registry)@, TableKind::Block, group, id);
        }
        id
    }

    /// Installs hooks on reads of memory: `generation_hook` runs when an
    /// access is translated, and when it is run, the execution hook for its size:
    /// 1, 2, 4 or 8 bytes, or any other.
    pub fn reads<P: Copy, C: Copy, G: Clone, X: Clone, N: Clone, A>(
        &self,
        registry: &mut HookRegistry<P, C>,
        generation_hook: Hook<P, C, G>,
        execution_hook_1: Hook<P, C, X>,
        execution_hook_2: Hook<P, C, X>,
        execution_hook_4: Hook<P, C, X>,
        execution_hook_8: Hook<P, C, X>,
        execution_hook_n: Hook<P, C, N>,
        add_read_hooks: A,
    ) -> (id: HookId) where A: FnOnce(&E, AddAccessHooks<P, G, X, N>) -> HookId
        requires
            call_requires(
                add_read_hooks,
                (
                    self.emulator(),
                    reads_request(
                        old(registry)@,
                        generation_hook,
                        execution_hook_1,
                        execution_hook_2,
                        execution_hook_4,
                        execution_hook_8,
                        execution_hook_n,
                    ),
                ),
            ),
        ensures
            call_ensures(
                add_read_hooks,
                (
                    self.emulator(),
                    reads_request(
                        old(registry)@,
                        generation_hook,
                        execution_hook_1,
                        execution_hook_2,
                        execution_hook_4,
                        execution_hook_8,
                        execution_hook_n,
                    ),
                ),
                id,
            ),
            old(registry)@.groups(TableKind::Read).len() <= usize::MAX,
            final(registry)@ == old(registry)@.push_group(
                TableKind::Read,
                reads_group(
                    generation_hook,
                    execution_hook_1,
                    execution_hook_2,
                    execution_hook_4,
                    execution_hook_8,
                    execution_hook_n,
                    id,
                ),
            ),
            final(registry)@.follows(old(registry)@),
    {
        let execs = [
            hook_to_repr(&execution_hook_1),
            hook_to_repr(&execution_hook_2),
            hook_to_repr(&execution_hook_4),
            hook_to_repr(&execution_hook_8),
            hook_to_repr(&execution_hook_n),
        ];
        let state = HookState::new(hook_to_repr(&generation_hook), HookRepr::Empty, execs);
        let ghost group = state@;
        let slot: usize = registry.insert_read(state);
        let id = add_read_hooks(
            &self.emulator,
            AddAccessHooks {
                data: HookData::Slot(slot),
                gen: get_raw_hook(generation_hook, Wrapper::Gen(TableKind::Read)),
                exec1: get_raw_hook(execution_hook_1, Wrapper::Exec(TableKind::Read, 0)),
                exec2: get_raw_hook(execution_hook_2, Wrapper::Exec(TableKind::Read, 1)),
                exec4: get_raw_hook(execution_hook_4, Wrapper::Exec(TableKind::Read, 2)),
                exec8: get_raw_hook(execution_hook_8, Wrapper::Exec(TableKind::Read, 3)),
                execn: get_raw_hook(execution_hook_n, Wrapper::Exec(TableKind::Read, 4)),
            },
        );
        registry.set_group_id(TableKind::Read, slot, id);
        proof {
            assert(execs@ =~= seq![
                execution_hook_1.spec_repr(),
                execution_hook_2.spec_repr(),
                execution_hook_4.spec_repr(),
                execution_hook_8.spec_repr(),
                execution_hook_n.spec_repr(),
            ]);
            crate::model::lemma_install_group(old(registry)@, TableKind::Read, group, id);
        }
        id
    }

    /// Installs hooks on writes to memory: `generation_hook` runs when an
    /// access is translated, and when it is run, the execution hook for its size:
    /// 1, 2, 4 or 8 bytes, or any other.
    pub fn writes<P: Copy, C: Copy, G: Clone, X: Clone, N: Clone, A>(
        &self,
        registry: &mut HookRegistry<P, C>,
        generation_hook: Hook<P, C, G>,
        execution_hook_1: Hook<P, C, X>,
        execution_hook_2: Hook<P, C, X>,
        execution_hook_4: Hook<P, C, X>,
        execution_hook_8: Hook<P, C, X>,
        execution_hook_n: Hook<P, C, N>,
        add_write_hooks: A,
    ) -> (id: HookId) where A: FnOnce(&E, AddAccessHooks<P, G, X, N>) -> HookId
        requires
            call_requires(
                add_write_hooks,
                (
                    self.emulator(),
                    writes_request(
                        old(registry)@,
                        generation_hook,
                        execution_hook_1,
                        execution_hook_2,
                        execution_hook_4,
                        execution_hook_8,
                        execution_hook_n,
                    ),
                ),
            ),
        ensures
            call_ensures(
                add_write_hooks,
                (
                    self.emulator(),
                    writes_request(
                        old(registry)@,
                        generation_hook,
                        execution_hook_1,
                        execution_hook_2,
                        execution_hook_4,
                        execution_hook_8,
                        execution_hook_n,
                    ),
                ),
                id,
            ),
            old(registry)@.groups(TableKind::Write).len() <= usize::MAX,
            final(registry)@ == old(registry)@.push_group(
                TableKind::Write,
                writes_group(
                    generation_hook,
                    execution_hook_1,
                    execution_hook_2,
                    execution_hook_4,
                    execution_hook_8,
                    execution_hook_n,
                    id,
                ),
            ),
            final(registry)@.follows(old(registry)@),
    {
        let execs = [
            hook_to_repr(&execution_hook_1),
            hook_to_repr(&execution_hook_2),
            hook_to_repr(&execution_hook_4),
            hook_to_repr(&execution_hook_8),
            hook_to_repr(&execution_hook_n),
        ];
        let state = HookState::new(hook_to_repr(&generation_hook), HookRepr::Empty, execs);
        let ghost group = state@;
        let slot: usize = registry.insert_write(state);
        let id = add_write_hooks(
            &self.emulator,
            AddAccessHooks {
                data: HookData::Slot(slot),
                gen: get_raw_hook(generation_hook, Wrapper::Gen(TableKind::Write)),
                exec1: get_raw_hook(execution_hook_1, Wrapper::Exec(TableKind::Write, 0)),
                exec2: get_raw_hook(execution_hook_2, Wrapper::Exec(TableKind::Write, 1)),
                exec4: get_raw_hook(execution_hook_4, Wrapper::Exec(TableKind::Write, 2)),
                exec8: get_raw_hook(execution_hook_8, Wrapper::Exec(TableKind::Write, 3)),
                execn: get_raw_hook(execution_hook_n, Wrapper::Exec(TableKind::Write, 4)),
            },
        );
        registry.set_group_id(TableKind::Write, slot, id);
        proof {
            assert(execs@ =~= seq![
                execution_hook_1.spec_repr(),
                execution_hook_2.spec_repr(),
                execution_hook_4.spec_repr(),
                execution_hook_8.spec_repr(),
                execution_hook_n.spec_repr(),
            ]);
            crate::model::lemma_install_group(old(registry)@, TableKind::Write, group, id);
        }
        id
    }

    /// Installs hooks on comparisons: `generation_hook` runs when a comparison is
    /// translated, and when it is run, the execution hook for the size of its
    /// operands: 1, 2, 4 or 8 bytes.
    pub fn cmps<P: Copy, C: Copy, G: Clone, X1: Clone, X2: Clone, X4: Clone, X8: Clone, A>(
        &self,
        registry: &mut HookRegistry<P, C>,
        generation_hook: Hook<P, C, G>,
        execution_hook_1: Hook<P, C, X1>,
        execution_hook_2: Hook<P, C, X2>,
        execution_hook_4: Hook<P, C, X4>,
        execution_hook_8: Hook<P, C, X8>,
        add_cmp_hooks: A,
    ) -> (id: HookId) where A: FnOnce(&E, AddCompareHooks<P, G, X1, X2, X4, X8>) -> HookId
        requires
            call_requires(
                add_cmp_hooks,
                (
                    self.emulator(),
                    cmps_request(
                        old(registry)@,
                        generation_hook,
                        execution_hook_1,
                        execution_hook_2,
                        execution_hook_4,
                        execution_hook_8,
                    ),
                ),
            ),
        ensures
            call_ensures(
                add_cmp_hooks,
                (
                    self.emulator(),
                    cmps_request(
                        old(registry)@,
                        generation_hook,
                        execution_hook_1,
                        execution_hook_2,
                        execution_hook_4,
                        execution_hook_8,
                    ),
                ),
                id,
            ),
            old(registry)@.groups(TableKind::Compare).len() <= usize::MAX,
            final(registry)@ == old(registry)@.push_group(
                TableKind::Compare,
                cmps_group(
                    generation_hook,
                    execution_hook_1,
                    execution_hook_2,
                    execution_hook_4,
                    execution_hook_8,
                    id,
                ),
            ),
            final(registry)@.follows(old(registry)@),
    {
        let execs = [
            hook_to_repr(&execution_hook_1),
            hook_to_repr(&execution_hook_2),
            hook_to_repr(&execution_hook_4),
            hook_to_repr(&execution_hook_8),
        ];
        let state = HookState::new(hook_to_repr(&generation_hook), HookRepr::Empty, execs);
        let ghost group = state@;
        let slot: usize = registry.insert_compare(state);
        let id = add_cmp_hooks(
            &self.emulator,
            AddCompareHooks {
                data: HookData::Slot(slot),
                gen: get_raw_hook(generation_hook, Wrapper::Gen(TableKind::Compare)),
                exec1: get_raw_hook(execution_hook_1, Wrapper::Exec(TableKind::Compare, 0)),
                exec2: get_raw_hook(execution_hook_2, Wrapper::Exec(TableKind::Compare, 1)),
                exec4: get_raw_hook(execution_hook_4, Wrapper::Exec(TableKind::Compare, 2)),
                exec8: get_raw_hook(execution_hook_8, Wrapper::Exec(TableKind::Compare, 3)),
            },
        );
        registry.set_group_id(TableKind::Compare, slot, id);
        proof {
            assert(execs@ =~= seq![
                execution_hook_1.spec_repr(),
                execution_hook_2.spec_repr(),
                execution_hook_4.spec_repr(),
                execution_hook_8.spec_repr(),
            ]);
            crate::model::lemma_install_group(old(registry)@, TableKind::Compare, group, id);
        }
        id
    }

    /// Installs a hook on the instruction at `addr`. Without a hook nothing is
    /// installed and the id is 0.
    pub fn instruction<P: Copy, C: Copy, R: Clone, A>(
        &self,
        registry: &mut HookRegistry<P, C>,
        addr: GuestAddr,
        hook: Hook<P, C, R>,
        invalidate_block: bool,
        set_instruction_hook: A,
    ) -> (id: HookId) where A: FnOnce(&E, SetHook<P, R>) -> HookId
        requires
            instruction_request(old(registry)@, addr, hook, invalidate_block) matches Some(request)
                ==> call_requires(set_instruction_hook, (self.emulator(), request)),
        ensures
            match instruction_request(old(registry)@, addr, hook, invalidate_block) {
                Some(request) => call_ensures(set_instruction_hook, (self.emulator(), request), id),
                None => id == HookId(0),
            },
            old(registry)@.closures(HookKind::Generic).len() <= usize::MAX,
            final(registry)@ == with_hook(old(registry)@, HookKind::Generic, hook, id),
            final(registry)@.follows(old(registry)@),
    {
        proof {
            registry.law_slots_fit();
        }
        match hook {
            Hook::Function(f) => self.instruction_function(
                addr,
                f,
                invalidate_block,
                set_instruction_hook,
            ),
            Hook::Closure(c) => self.instruction_closure(
                registry,
                addr,
                c,
                invalidate_block,
                set_instruction_hook,
            ),
            Hook::Raw(r) => set_instruction_hook(
                &self.emulator,
                SetHook {
                    data: HookData::Null,
                    addr,
                    callback: Callback::Raw(r),
                    invalidate_block,
                },
            ),
            Hook::Empty => HookId(0),
        }
    }

    /// Installs a function as a hook on the instruction at `addr`.
    pub fn instruction_function<P: Copy, R, A>(
        &self,
        addr: GuestAddr,
        hook: P,
        invalidate_block: bool,
        set_instruction_hook: A,
    ) -> (id: HookId) where A: FnOnce(&E, SetHook<P, R>) -> HookId
        requires
            call_requires(
                set_instruction_hook,
                (
                    self.emulator(),
                    SetHook {
                        data: HookData::Function(hook),
                        addr,
                        callback: Callback::Wrapper(Wrapper::Func(HookKind::Generic)),
                        invalidate_block,
                    },
                ),
            ),
        ensures
            call_ensures(
                set_instruction_hook,
                (
                    self.emulator(),
                    SetHook {
                        data: HookData::Function(hook),
                        addr,
                        callback: Callback::Wrapper(Wrapper::Func(HookKind::Generic)),
                        invalidate_block,
                    },
                ),
                id,
            ),
    {
        set_instruction_hook(
            &self.emulator,
            SetHook {
                data: HookData::Function(hook),
                addr,
                callback: Callback::Wrapper(Wrapper::Func(HookKind::Generic)),
                invalidate_block,
            },
        )
    }

    /// Installs a closure as a hook on the instruction at `addr`.
    pub fn instruction_closure<P: Copy, C: Copy, R, A>(
        &self,
        registry: &mut HookRegistry<P, C>,
        addr: GuestAddr,
        hook: C,
        invalidate_block: bool,
        set_instruction_hook: A,
    ) -> (id: HookId) where A: FnOnce(&E, SetHook<P, R>) -> HookId
        requires
            call_requires(
                set_instruction_hook,
                (
                    self.emulator(),
                    SetHook {
                        data: old(registry)@.next_closure(HookKind::Generic),
                        addr,
                        callback: Callback::Wrapper(Wrapper::Closure(HookKind::Generic)),
                        invalidate_block,
                    },
                ),
            ),
        ensures
            call_ensures(
                set_instruction_hook,
                (
                    self.emulator(),
                    SetHook {
                        data: old(registry)@.next_closure(HookKind::Generic),
                        addr,
                        callback: Callback::Wrapper(Wrapper::Closure(HookKind::Generic)),
                        invalidate_block,
                    },
                ),
                id,
            ),
            old(registry)@.closures(HookKind::Generic).len() <= usize::MAX,
            final(registry)@ == old(registry)@.push_closure(HookKind::Generic, id, hook),
            final(registry)@.follows(old(registry)@),
    {
        let slot: usize = registry.insert_closure(HookKind::Generic, hook);
        let id = set_instruction_hook(
            &self.emulator,
            SetHook {
                data: HookData::Slot(slot),
                addr,
                callback: Callback::Wrapper(Wrapper::Closure(HookKind::Generic)),
                invalidate_block,
            },
        );
        registry.set_closure_id(HookKind::Generic, slot, id);
        proof {
            crate::model::lemma_install_closure(old(registry)@, HookKind::Generic, id, hook);
        }
        id
    }

    /// Installs a hook of `kind`. Without a hook nothing is installed and the
    /// id is 0.
    fn add_hook<P: Copy, C: Copy, R: Clone, A>(
        &self,
        registry: &mut HookRegistry<P, C>,
        kind: HookKind,
        hook: Hook<P, C, R>,
        install: A,
    ) -> (id: HookId) where A: FnOnce(&E, AddHook<P, R>) -> HookId
        requires
            hook_request(old(registry)@, kind, hook) matches Some(request) ==> call_requires(
                install,
                (self.emulator(), request),
            ),
        ensures
            match hook_request(old(registry)@, kind, hook) {
                Some(request) => call_ensures(install, (self.emulator(), request), id),
                None => id == HookId(0),
            },
            old(registry)@.closures(kind).len() <= usize::MAX,
            final(registry)@ == with_hook(old(registry)@, kind, hook, id),
            final(registry)@.follows(old(registry)@),
    {
        proof {
            registry.law_slots_fit();
        }
        match hook {
            Hook::Function(f) => self.add_function(kind, f, install),
            Hook::Closure(c) => self.add_closure(registry, kind, c, install),
            Hook::Raw(r) => install(
                &self.emulator,
                AddHook { data: HookData::Null, callback: Callback::Raw(r) },
            ),
            Hook::Empty => HookId(0),
        }
    }

    /// Installs a function as a hook of `kind`.
    fn add_function<P: Copy, R, A>(&self, kind: HookKind, hook: P, install: A) -> (id:
        HookId) where A: FnOnce(&E, AddHook<P, R>) -> HookId
        requires
            call_requires(install, (self.emulator(), function_request(kind, hook))),
        ensures
            call_ensures(install, (self.emulator(), function_request(kind, hook)), id),
    {
        install(
            &self.emulator,
            AddHook {
                data: HookData::Function(hook),
                callback: Callback::Wrapper(Wrapper::Func(kind)),
            },
        )
    }

    /// Installs a closure as a hook of `kind`.
    fn add_closure<P: Copy, C: Copy, R, A>(
        &self,
        registry: &mut HookRegistry<P, C>,
        kind: HookKind,
        hook: C,
        install: A,
    ) -> (id: HookId) where A: FnOnce(&E, AddHook<P, R>) -> HookId
        requires
            call_requires(install, (self.emulator(), closure_request(old(registry)@, kind))),
        ensures
            call_ensures(install, (self.emulator(), closure_request(old(registry)@, kind)), id),
            old(registry)@.closures(kind).len() <= usize::MAX,
            final(registry)@ == old(registry)@.push_closure(kind, id, hook),
            final(registry)@.follows(old(registry)@),
    {
        let slot: usize = registry.insert_closure(kind, hook);
        let id = install(
            &self.emulator,
            AddHook {
                data: HookData::Slot(slot),
                callback: Callback::Wrapper(Wrapper::Closure(kind)),
            },
        );
        registry.set_closure_id(kind, slot, id);
        proof {
            crate::model::lemma_install_closure(old(registry)@, kind, id, hook);
        }
        id
    }

    /// Installs a hook on the backdoor instruction. Without a hook nothing
    /// is installed and the id is 0.
    pub fn backdoor<P: Copy, C: Copy, R: Clone, A>(
        &self,
        registry: &mut HookRegistry<P, C>,
        hook: Hook<P, C, R>,
        add_backdoor_hook: A,
    ) -> (id: HookId) where A: FnOnce(&E, AddHook<P, R>) -> HookId
        requires
            hook_request(old(registry)@, HookKind::Backdoor, hook) matches Some(request)
                ==> call_requires(add_backdoor_hook, (self.emulator(), request)),
        ensures
            match hook_request(old(registry)@, HookKind::Backdoor, hook) {
                Some(request) => call_ensures(add_backdoor_hook, (self.emulator(), request), id),
                None => id == HookId(0),
            },
            old(registry)@.closures(HookKind::Backdoor).len() <= usize::MAX,
            final(registry)@ == with_hook(old(registry)@, HookKind::Backdoor, hook, id),
            final(registry)@.follows(old(registry)@),
    {
        self.add_hook(registry, HookKind::Backdoor, hook, add_backdoor_hook)
    }

    /// Installs a function as a hook on the backdoor instruction.
    pub fn backdoor_function<P: Copy, R, A>(&self, hook: P, add_backdoor_hook: A) -> (id:
        HookId) where A: FnOnce(&E, AddHook<P, R>) -> HookId
        requires
            call_requires(
                add_backdoor_hook,
                (self.emulator(), function_request(HookKind::Backdoor, hook)),
            ),
        ensures
            call_ensures(
                add_backdoor_hook,
                (self.emulator(), function_request(HookKind::Backdoor, hook)),
                id,
            ),
    {
        self.add_function(HookKind::Backdoor, hook, add_backdoor_hook)
    }

    /// Installs a closure as a hook on the backdoor instruction.
    pub fn backdoor_closure<P: Copy, C: Copy, R, A>(
        &self,
        registry: &mut HookRegistry<P, C>,
        hook: C,
        add_backdoor_hook: A,
    ) -> (id: HookId) where A: FnOnce(&E, AddHook<P, R>) -> HookId
        requires
            call_requires(
                add_backdoor_hook,
                (self.emulator(), closure_request(old(registry)@, HookKind::Backdoor)),
            ),
        ensures
            call_ensures(
                add_backdoor_hook,
                (self.emulator(), closure_request(old(registry)@, HookKind::Backdoor)),
                id,
            ),
            old(registry)@.closures(HookKind::Backdoor).len() <= usize::MAX,
            final(registry)@ == old(registry)@.push_closure(HookKind::Backdoor, id, hook),
            final(registry)@.follows(old(registry)@),
    {
        self.add_closure(registry, HookKind::Backdoor, hook, add_backdoor_hook)
    }

    /// Installs a hook on system calls about to be made. Without a hook nothing
    /// is installed and the id is 0.
    pub fn syscalls<P: Copy, C: Copy, R: Clone, A>(
        &self,
        registry: &mut HookRegistry<P, C>,
        hook: Hook<P, C, R>,
        add_pre_syscall_hook: A,
    ) -> (id: HookId) where A: FnOnce(&E, AddHook<P, R>) -> HookId
        requires
            hook_request(old(registry)@, HookKind::PreSyscall, hook) matches Some(request)
                ==> call_requires(add_pre_syscall_hook, (self.emulator(), request)),
        ensures
            match hook_request(old(registry)@, HookKind::PreSyscall, hook) {
                Some(request) => call_ensures(add_pre_syscall_hook, (self.emulator(), request), id),
                None => id == HookId(0),
            },
            old(registry)@.closures(HookKind::PreSyscall).len() <= usize::MAX,
            final(registry)@ == with_hook(old(registry)@, HookKind::PreSyscall, hook, id),
            final(registry)@.follows(old(registry)@),
    {
        self.add_hook(registry, HookKind::PreSyscall, hook, add_pre_syscall_hook)
    }

    /// Installs a function as a hook on system calls about to be made.
    pub fn syscalls_function<P: Copy, R, A>(&self, hook: P, add_pre_syscall_hook: A) -> (id:
        HookId) where A: FnOnce(&E, AddHook<P, R>) -> HookId
        requires
            call_requires(
                add_pre_syscall_hook,
                (self.emulator(), function_request(HookKind::PreSyscall, hook)),
            ),
        ensures
            call_ensures(
                add_pre_syscall_hook,
                (self.emulator(), function_request(HookKind::PreSyscall, hook)),
                id,
            ),
    {
        self.add_function(HookKind::PreSyscall, hook, add_pre_syscall_hook)
    }

    /// Installs a closure as a hook on system calls about to be made.
    pub fn syscalls_closure<P: Copy, C: Copy, R, A>(
        &self,
        registry: &mut HookRegistry<P, C>,
        hook: C,
        add_pre_syscall_hook: A,
    ) -> (id: HookId) where A: FnOnce(&E, AddHook<P, R>) -> HookId
        requires
            call_requires(
                add_pre_syscall_hook,
                (self.emulator(), closure_request(old(registry)@, HookKind::PreSyscall)),
            ),
        ensures
            call_ensures(
                add_pre_syscall_hook,
                (self.emulator(), closure_request(old(registry)@, HookKind::PreSyscall)),
                id,
            ),
            old(registry)@.closures(HookKind::PreSyscall).len() <= usize::MAX,
            final(registry)@ == old(registry)@.push_closure(HookKind::PreSyscall, id, hook),
            final(registry)@.follows(old(registry)@),
    {
        self.add_closure(registry, HookKind::PreSyscall, hook, add_pre_syscall_hook)
    }

    /// Installs a hook on system calls that have returned. Without a hook nothing
    /// is installed and the id is 0.
    pub fn after_syscalls<P: Copy, C: Copy, R: Clone, A>(
        &self,
        registry: &mut HookRegistry<P, C>,
        hook: Hook<P, C, R>,
        add_post_syscall_hook: A,
    ) -> (id: HookId) where A: FnOnce(&E, AddHook<P, R>) -> HookId
        requires
            hook_request(old(registry)@, HookKind::PostSyscall, hook) matches Some(request)
                ==> call_requires(add_post_syscall_hook, (self.emulator(), request)),
        ensures
            match hook_request(old(registry)@, HookKind::PostSyscall, hook) {
                Some(request) => call_ensures(
                    add_post_syscall_hook,
                    (self.emulator(), request),
                    id,
                ),
                None => id == HookId(0),
            },
            old(registry)@.closures(HookKind::PostSyscall).len() <= usize::MAX,
            final(registry)@ == with_hook(old(registry)@, HookKind::PostSyscall, hook, id),
            final(registry)@.follows(old(registry)@),
    {
        self.add_hook(registry, HookKind::PostSyscall, hook, add_post_syscall_hook)
    }

    /// Installs a function as a hook on system calls that have returned.
    pub fn after_syscalls_function<P: Copy, R, A>(
        &self,
        hook: P,
        add_post_syscall_hook: A,
    ) -> (id: HookId) where A: FnOnce(&E, AddHook<P, R>) -> HookId
        requires
            call_requires(
                add_post_syscall_hook,
                (self.emulator(), function_request(HookKind::PostSyscall, hook)),
            ),
        ensures
            call_ensures(
                add_post_syscall_hook,
                (self.emulator(), function_request(HookKind::PostSyscall, hook)),
                id,
            ),
    {
        self.add_function(HookKind::PostSyscall, hook, add_post_syscall_hook)
    }

    /// Installs a closure as a hook on system calls that have returned.
    pub fn after_syscalls_closure<P: Copy, C: Copy, R, A>(
        &self,
        registry: &mut HookRegistry<P, C>,
        hook: C,
        add_post_syscall_hook: A,
    ) -> (id: HookId) where A: FnOnce(&E, AddHook<P, R>) -> HookId
        requires
            call_requires(
                add_post_syscall_hook,
                (self.emulator(), closure_request(old(registry)@, HookKind::PostSyscall)),
            ),
        ensures
            call_ensures(
                add_post_syscall_hook,
                (self.emulator(), closure_request(old(registry)@, HookKind::PostSyscall)),
                id,
            ),
            old(registry)@.closures(HookKind::PostSyscall).len() <= usize::MAX,
            final(registry)@ == old(registry)@.push_closure(HookKind::PostSyscall, id, hook),
            final(registry)@.follows(old(registry)@),
    {
        self.add_closure(registry, HookKind::PostSyscall, hook, add_post_syscall_hook)
    }

    /// Installs a hook on the creation of guest threads. Without a hook nothing
    /// is installed and the id is 0.
    pub fn thread_creation<P: Copy, C: Copy, R: Clone, A>(
        &self,
        registry: &mut HookRegistry<P, C>,
        hook: Hook<P, C, R>,
        add_new_thread_hook: A,
    ) -> (id: HookId) where A: FnOnce(&E, AddHook<P, R>) -> HookId
        requires
            hook_request(old(registry)@, HookKind::NewThread, hook) matches Some(request)
                ==> call_requires(add_new_thread_hook, (self.emulator(), request)),
        ensures
            match hook_request(old(registry)@, HookKind::NewThread, hook) {
                Some(request) => call_ensures(add_new_thread_hook, (self.emulator(), request), id),
                None => id == HookId(0),
            },
            old(registry)@.closures(HookKind::NewThread).len() <= usize::MAX,
            final(registry)@ == with_hook(old(registry)@, HookKind::NewThread, hook, id),
            final(registry)@.follows(old(registry)@),
    {
        self.add_hook(registry, HookKind::NewThread, hook, add_new_thread_hook)
    }

    /// Installs a function as a hook on the creation of guest threads.
    pub fn thread_creation_function<P: Copy, R, A>(&self, hook: P, add_new_thread_hook: A) -> (id:
        HookId) where A: FnOnce(&E, AddHook<P, R>) -> HookId
        requires
            call_requires(
                add_new_thread_hook,
                (self.emulator(), function_request(HookKind::NewThread, hook)),
            ),
        ensures
            call_ensures(
                add_new_thread_hook,
                (self.emulator(), function_request(HookKind::NewThread, hook)),
                id,
            ),
    {
        self.add_function(HookKind::NewThread, hook, add_new_thread_hook)
    }

    /// Installs a closure as a hook on the creation of guest threads.
    pub fn thread_creation_closure<P: Copy, C: Copy, R, A>(
        &self,
        registry: &mut HookRegistry<P, C>,
        hook: C,
        add_new_thread_hook: A,
    ) -> (id: HookId) where A: FnOnce(&E, AddHook<P, R>) -> HookId
        requires
            call_requires(
                add_new_thread_hook,
                (self.emulator(), closure_request(old(registry)@, HookKind::NewThread)),
            ),
        ensures
            call_ensures(
                add_new_thread_hook,
                (self.emulator(), closure_request(old(registry)@, HookKind::NewThread)),
                id,
            ),
            old(registry)@.closures(HookKind::NewThread).len() <= usize::MAX,
            final(registry)@ == old(registry)@.push_closure(HookKind::NewThread, id, hook),
            final(registry)@.follows(old(registry)@),
    {
        self.add_closure(registry, HookKind::NewThread, hook, add_new_thread_hook)
    }

    /// Adds a function to the hooks that run when the guest crashes.
    pub fn crash_function<P: Copy, C: Copy, A>(
        &self,
        registry: &mut HookRegistry<P, C>,
        hook: P,
        set_crash_hook: A,
    ) where A: FnOnce(&E, Wrapper)
        requires
            call_requires(set_crash_hook, (self.emulator(), Wrapper::Crash)),
        ensures
            call_ensures(set_crash_hook, (self.emulator(), Wrapper::Crash), ()),
            final(registry)@ == old(registry)@.push_crash(HookRepr::Function(hook)),
            final(registry)@.follows(old(registry)@),
    {
        set_crash_hook(&self.emulator, Wrapper::Crash);
        registry.insert_crash(HookRepr::Function(hook));
    }

    /// Adds a closure to the hooks that run when the guest crashes.
    pub fn crash_closure<P: Copy, C: Copy, A>(
        &self,
        registry: &mut HookRegistry<P, C>,
        hook: C,
        set_crash_hook: A,
    ) where A: FnOnce(&E, Wrapper)
        requires
            call_requires(set_crash_hook, (self.emulator(), Wrapper::Crash)),
        ensures
            call_ensures(set_crash_hook, (self.emulator(), Wrapper::Crash), ()),
            final(registry)@ == old(registry)@.push_crash(HookRepr::Closure(hook)),
            final(registry)@.follows(old(registry)@),
    {
        set_crash_hook(&self.emulator, Wrapper::Crash);
        registry.insert_crash(HookRepr::Closure(hook));
    }
}

/// These hooks are of this emulator and these helpers.
pub open spec fn made_of<QT, E>(hooks: QemuHooks<QT, E>, emulator: E, helpers: QT) -> bool {
    &&& *hooks.emulator() == emulator
    &&& *hooks.helpers() == helpers
}

/// Code was flushed, with the result `flushed`, and with that the helpers
/// installed their hooks on `hooks`.
pub open spec fn flushed_then_installed<QT, E, F, A, I>(
    hooks: QemuHooks<QT, E>,
    flush_jit: A,
    flushed: F,
    init_hooks_all: I,
) -> bool where A: FnOnce(&E) -> F, I: FnOnce(&QemuHooks<QT, E>, F) {
    &&& call_ensures(flush_jit, (hooks.emulator(),), flushed)
    &&& call_ensures(init_hooks_all, (&hooks, flushed), ())
}

/// What `QemuHooks::edges` asks of the emulator.
pub open spec fn edges_request<P, C, G: Clone, X: Clone>(
    model: RegistryModel<P, C>,
    generation_hook: Hook<P, C, G>,
    execution_hook: Hook<P, C, X>,
) -> AddEdgeHooks<P, G, X> {
    AddEdgeHooks {
        data: model.next_group(TableKind::Edge),
        gen: generation_hook.spec_callback(Wrapper::Gen(TableKind::Edge)),
        execution: execution_hook.spec_callback(Wrapper::Exec(TableKind::Edge, 0)),
    }
}

/// What `QemuHooks::edges` keeps, where `id` is the emulator's answer.
pub open spec fn edges_group<P, C, G: Clone, X: Clone>(
    generation_hook: Hook<P, C, G>,
    execution_hook: Hook<P, C, X>,
    id: HookId,
) -> GroupModel<P, C> {
    GroupModel {
        id,
        gen: generation_hook.spec_repr(),
        post_gen: HookRepr::Empty,
        execs: seq![execution_hook.spec_repr()],
    }
}

/// What `QemuHooks::blocks` asks of the emulator.
pub open spec fn blocks_request<P, C, G: Clone, B: Clone, X: Clone>(
    model: RegistryModel<P, C>,
    generation_hook: Hook<P, C, G>,
    post_generation_hook: Hook<P, C, B>,
    execution_hook: Hook<P, C, X>,
) -> AddBlockHooks<P, G, B, X> {
    AddBlockHooks {
        data: model.next_group(TableKind::Block),
        gen: generation_hook.spec_callback(Wrapper::Gen(TableKind::Block)),
        post_gen: post_generation_hook.spec_callback(Wrapper::PostGen(TableKind::Block)),
        execution: execution_hook.spec_callback(Wrapper::Exec(TableKind::Block, 0)),
    }
}

/// What `QemuHooks::blocks` keeps, where `id` is the emulator's answer.
pub open spec fn blocks_group<P, C, G: Clone, B: Clone, X: Clone>(
    generation_hook: Hook<P, C, G>,
    post_generation_hook: Hook<P, C, B>,
    execution_hook: Hook<P, C, X>,
    id: HookId,
) -> GroupModel<P, C> {
    GroupModel {
        id,
        gen: generation_hook.spec_repr(),
        post_gen: post_generation_hook.spec_repr(),
        execs: seq![execution_hook.spec_repr()],
    }
}

/// What `QemuHooks::reads` asks of the emulator.
pub open spec fn reads_request<P, C, G: Clone, X: Clone, N: Clone>(
    model: RegistryModel<P, C>,
    generation_hook: Hook<P, C, G>,
    execution_hook_1: Hook<P, C, X>,
    execution_hook_2: Hook<P, C, X>,
    execution_hook_4: Hook<P, C, X>,
    execution_hook_8: Hook<P, C, X>,
    execution_hook_n: Hook<P, C, N>,
) -> AddAccessHooks<P, G, X, N> {
    AddAccessHooks {
        data: model.next_group(TableKind::Read),
        gen: generation_hook.spec_callback(Wrapper::Gen(TableKind::Read)),
        exec1: execution_hook_1.spec_callback(Wrapper::Exec(TableKind::Read, 0)),
        exec2: execution_hook_2.spec_callback(Wrapper::Exec(TableKind::Read, 1)),
        exec4: execution_hook_4.spec_callback(Wrapper::Exec(TableKind::Read, 2)),
        exec8: execution_hook_8.spec_callback(Wrapper::Exec(TableKind::Read, 3)),
        execn: execution_hook_n.spec_callback(Wrapper::Exec(TableKind::Read, 4)),
    }
}

/// What `QemuHooks::reads` keeps, where `id` is the emulator's answer.
pub open spec fn reads_group<P, C, G: Clone, X: Clone, N: Clone>(
    generation_hook: Hook<P, C, G>,
    execution_hook_1: Hook<P, C, X>,
    execution_hook_2: Hook<P, C, X>,
    execution_hook_4: Hook<P, C, X>,
    execution_hook_8: Hook<P, C, X>,
    execution_hook_n: Hook<P, C, N>,
    id: HookId,
) -> GroupModel<P, C> {
    GroupModel {
        id,
        gen: generation_hook.spec_repr(),
        post_gen: HookRepr::Empty,
        execs: seq![
            execution_hook_1.spec_repr(),
            execution_hook_2.spec_repr(),
            execution_hook_4.spec_repr(),
            execution_hook_8.spec_repr(),
            execution_hook_n.spec_repr(),
        ],
    }
}

/// What `QemuHooks::writes` asks of the emulator.
pub open spec fn writes_request<P, C, G: Clone, X: Clone, N: Clone>(
    model: RegistryModel<P, C>,
    generation_hook: Hook<P, C, G>,
    execution_hook_1: Hook<P, C, X>,
    execution_hook_2: Hook<P, C, X>,
    execution_hook_4: Hook<P, C, X>,
    execution_hook_8: Hook<P, C, X>,
    execution_hook_n: Hook<P, C, N>,
) -> AddAccessHooks<P, G, X, N> {
    AddAccessHooks {
        data: model.next_group(TableKind::Write),
        gen: generation_hook.spec_callback(Wrapper::Gen(TableKind::Write)),
        exec1: execution_hook_1.spec_callback(Wrapper::Exec(TableKind::Write, 0)),
        exec2: execution_hook_2.spec_callback(Wrapper::Exec(TableKind::Write, 1)),
        exec4: execution_hook_4.spec_callback(Wrapper::Exec(TableKind::Write, 2)),
        exec8: execution_hook_8.spec_callback(Wrapper::Exec(TableKind::Write, 3)),
        execn: execution_hook_n.spec_callback(Wrapper::Exec(TableKind::Write, 4)),
    }
}

/// What `QemuHooks::writes` keeps, where `id` is the emulator's answer.
pub open spec fn writes_group<P, C, G: Clone, X: Clone, N: Clone>(
    generation_hook: Hook<P, C, G>,
    execution_hook_1: Hook<P, C, X>,
    execution_hook_2: Hook<P, C, X>,
    execution_hook_4: Hook<P, C, X>,
    execution_hook_8: Hook<P, C, X>,
    execution_hook_n: Hook<P, C, N>,
    id: HookId,
) -> GroupModel<P, C> {
    GroupModel {
        id,
        gen: generation_hook.spec_repr(),
        post_gen: HookRepr::Empty,
        execs: seq![
            execution_hook_1.spec_repr(),
            execution_hook_2.spec_repr(),
            execution_hook_4.spec_repr(),
            execution_hook_8.spec_repr(),
            execution_hook_n.spec_repr(),
        ],
    }
}

/// What `QemuHooks::cmps` asks of the emulator.
pub open spec fn cmps_request<P, C, G: Clone, X1: Clone, X2: Clone, X4: Clone, X8: Clone>(
    model: RegistryModel<P, C>,
    generation_hook: Hook<P, C, G>,
    execution_hook_1: Hook<P, C, X1>,
    execution_hook_2: Hook<P, C, X2>,
    execution_hook_4: Hook<P, C, X4>,
    execution_hook_8: Hook<P, C, X8>,
) -> AddCompareHooks<P, G, X1, X2, X4, X8> {
    AddCompareHooks {
        data: model.next_group(TableKind::Compare),
        gen: generation_hook.spec_callback(Wrapper::Gen(TableKind::Compare)),
        exec1: execution_hook_1.spec_callback(Wrapper::Exec(TableKind::Compare, 0)),
        exec2: execution_hook_2.spec_callback(Wrapper::Exec(TableKind::Compare, 1)),
        exec4: execution_hook_4.spec_callback(Wrapper::Exec(TableKind::Compare, 2)),
        exec8: execution_hook_8.spec_callback(Wrapper::Exec(TableKind::Compare, 3)),
    }
}

/// What `QemuHooks::cmps` keeps, where `id` is the emulator's answer.
pub open spec fn cmps_group<P, C, G: Clone, X1: Clone, X2: Clone, X4: Clone, X8: Clone>(
    generation_hook: Hook<P, C, G>,
    execution_hook_1: Hook<P, C, X1>,
    execution_hook_2: Hook<P, C, X2>,
    execution_hook_4: Hook<P, C, X4>,
    execution_hook_8: Hook<P, C, X8>,
    id: HookId,
) -> GroupModel<P, C> {
    GroupModel {
        id,
        gen: generation_hook.spec_repr(),
        post_gen: HookRepr::Empty,
        execs: seq![
            execution_hook_1.spec_repr(),
            execution_hook_2.spec_repr(),
            execution_hook_4.spec_repr(),
            execution_hook_8.spec_repr(),
        ],
    }
}

/// What `QemuHooks::instruction` asks of the emulator, if anything.
pub open spec fn instruction_request<P, C, R: Clone>(
    model: RegistryModel<P, C>,
    addr: GuestAddr,
    hook: Hook<P, C, R>,
    invalidate_block: bool,
) -> Option<SetHook<P, R>> {
    match hook_request(model, HookKind::Generic, hook) {
        Some(AddHook { data, callback }) => Some(
            SetHook { data, addr, callback, invalidate_block },
        ),
        None => None,
    }
}

/// What the emulator is asked for a hook of `kind`, if anything.
pub open spec fn hook_request<P, C, R: Clone>(
    model: RegistryModel<P, C>,
    kind: HookKind,
    hook: Hook<P, C, R>,
) -> Option<AddHook<P, R>> {
    match hook {
        Hook::Function(f) => Some(function_request(kind, f)),
        Hook::Closure(_) => Some(closure_request(model, kind)),
        Hook::Raw(r) => Some(AddHook { data: HookData::Null, callback: Callback::Raw(r) }),
        Hook::Empty => None,
    }
}

/// What the emulator is asked for a function as a hook of `kind`.
pub open spec fn function_request<P, R>(kind: HookKind, hook: P) -> AddHook<P, R> {
    AddHook {
        data: HookData::Function(hook),
        callback: Callback::Wrapper(Wrapper::Func(kind)),
    }
}

/// What the emulator is asked for a closure as a hook of `kind`.
pub open spec fn closure_request<P, C, R>(model: RegistryModel<P, C>, kind: HookKind) -> AddHook<
    P,
    R,
> {
    AddHook {
        data: model.next_closure(kind),
        callback: Callback::Wrapper(Wrapper::Closure(kind)),
    }
}

/// The hooks with one of `kind` more, where `id` is the emulator's answer. Only
/// closures are kept: the emulator hands functions back, and raw hooks are its
/// own.
pub open spec fn with_hook<P, C, R: Clone>(
    model: RegistryModel<P, C>,
    kind: HookKind,
    hook: Hook<P, C, R>,
    id: HookId,
) -> RegistryModel<P, C> {
    match hook {
        Hook::Closure(c) => model.push_closure(kind, id, c),
        _ => model,
    }
}

} // verus!
