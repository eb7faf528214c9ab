//! What a call of each function does, said of every call that its contract
//! allows: what the emulator is asked, what is kept, and what comes back.

use vstd::prelude::*;

use crate::emulator::{
    AddAccessHooks, AddBlockHooks, AddCompareHooks, AddEdgeHooks, AddHook, Callback, GuestAddr,
    HookData, HookId, HookKind, SetHook, TableKind, Wrapper, SKIP_EXEC_HOOK,
};
use crate::hook::{get_raw_hook, hook_to_repr, Hook, HookRepr, HookTarget};
use crate::instance::{Instance, Permit, Ready};
use crate::model::RegistryModel;
use crate::qemu_hooks::{get_qemu_hooks, QemuHooks};
use crate::registry::{gen_hook_id, HookCall, HookRegistry};
use crate::state::HookState;

verus! {

/// The emulator enters `hook` by `callback`: by the entry point `entry` where
/// the hook is a function or a closure, and by the raw function where it is one.
pub open spec fn entered<P, C, R: Clone>(
    hook: Hook<P, C, R>,
    callback: Option<Callback<R>>,
    entry: Wrapper,
) -> bool {
    match hook {
        Hook::Function(_) => callback == Some(Callback::<R>::Wrapper(entry)),
        Hook::Closure(_) => callback == Some(Callback::<R>::Wrapper(entry)),
        Hook::Raw(r) => callback == Some(Callback::Raw(r)),
        Hook::Empty => callback is None,
    }
}

/// `repr` is `hook` where that is a function or a closure, and else nothing.
pub open spec fn kept<P, C, R: Clone>(hook: Hook<P, C, R>, repr: HookRepr<P, C>) -> bool {
    match hook {
        Hook::Function(f) => repr == HookRepr::<P, C>::Function(f),
        Hook::Closure(c) => repr == HookRepr::<P, C>::Closure(c),
        Hook::Raw(_) => repr is Empty,
        Hook::Empty => repr is Empty,
    }
}

/// `data` is the slot number `slot`.
pub open spec fn is_slot<P>(data: HookData<P>, slot: nat) -> bool {
    data matches HookData::Slot(s) && s == slot
}

/// The hook that is run is `repr`; none is, where nothing is kept.
pub open spec fn is_run<P, C, A>(
    call: Option<HookCall<P, C, A>>,
    hooks: P,
    repr: HookRepr<P, C>,
    args: A,
) -> bool {
    match repr {
        HookRepr::Function(p) => call == Some(
            HookCall { hooks, target: HookTarget::<P, C>::Function(p), args },
        ),
        HookRepr::Closure(c) => call == Some(
            HookCall { hooks, target: HookTarget::<P, C>::Closure(c), args },
        ),
        HookRepr::Empty => call is None,
    }
}

/// Each hook of an edge is entered by the entry point of its role, and kept in
/// its role in a group of its own, behind those that were there.
pub proof fn law_edges<QT, E, P: Copy, C: Copy, G: Clone, X: Clone, A>(
    hooks: &QemuHooks<QT, E>,
    registry: &mut HookRegistry<P, C>,
    generation_hook: Hook<P, C, G>,
    execution_hook: Hook<P, C, X>,
    install: A,
    id: HookId,
) where A: FnOnce(&E, AddEdgeHooks<P, G, X>) -> HookId
    requires
        call_ensures(
            QemuHooks::<QT, E>::edges::<P, C, G, X, A>,
            (
                hooks,
                registry,
                generation_hook,
                execution_hook,
                install,
            ),
            id,
        ),
    ensures
        exists|request: AddEdgeHooks<P, G, X>|
            {
                &&& #[trigger] call_ensures(install, (hooks.emulator(), request), id)
                &&& is_slot(request.data, old(registry)@.edge.len())
                &&& entered(generation_hook, request.gen, Wrapper::Gen(TableKind::Edge))
                &&& entered(execution_hook, request.execution, Wrapper::Exec(TableKind::Edge, 0))
            },
        final(registry)@ == (RegistryModel {
            edge: final(registry)@.edge,
            ..old(registry)@
        }),
        final(registry)@.edge.len() == old(registry)@.edge.len() + 1,
        final(registry)@.edge.drop_last() == old(registry)@.edge,
        ({
            let group = final(registry)@.edge.last();
            &&& group.id == id
            &&& kept(generation_hook, group.gen)
            &&& group.post_gen is Empty
            &&& group.execs.len() == 1
            &&& kept(execution_hook, group.execs[0])
        }),
{
}

/// Each hook of a block is entered by the entry point of its role, and kept in
/// its role in a group of its own, behind those that were there.
pub proof fn law_blocks<QT, E, P: Copy, C: Copy, G: Clone, B: Clone, X: Clone, A>(
    hooks: &QemuHooks<QT, E>,
    registry: &mut HookRegistry<P, C>,
    generation_hook: Hook<P, C, G>,
    post_generation_hook: Hook<P, C, B>,
    execution_hook: Hook<P, C, X>,
    install: A,
    id: HookId,
) where A: FnOnce(&E, AddBlockHooks<P, G, B, X>) -> HookId
    requires
        call_ensures(
            QemuHooks::<QT, E>::blocks::<P, C, G, B, X, A>,
            (
                hooks,
                registry,
                generation_hook,
                post_generation_hook,
                execution_hook,
                install,
            ),
            id,
        ),
    ensures
        exists|request: AddBlockHooks<P, G, B, X>|
            {
                &&& #[trigger] call_ensures(install, (hooks.emulator(), request), id)
                &&& is_slot(request.data, old(registry)@.block.len())
                &&& entered(generation_hook, request.gen, Wrapper::Gen(TableKind::Block))
                &&& entered(
                    post_generation_hook,
                    request.post_gen,
                    Wrapper::PostGen(TableKind::Block),
                )
                &&& entered(execution_hook, request.execution, Wrapper::Exec(TableKind::Block, 0))
            },
        final(registry)@ == (RegistryModel {
            block: final(registry)@.block,
            ..old(registry)@
        }),
        final(registry)@.block.len() == old(registry)@.block.len() + 1,
        final(registry)@.block.drop_last() == old(registry)@.block,
        ({
            let group = final(registry)@.block.last();
            &&& group.id == id
            &&& kept(generation_hook, group.gen)
            &&& kept(post_generation_hook, group.post_gen)
            &&& group.execs.len() == 1
            &&& kept(execution_hook, group.execs[0])
        }),
{
}

/// Each hook on reads is entered by the entry point of its role and size, whatever
/// the others are, and kept at its size in a group of its own, behind those that
/// were there.
pub proof fn law_reads<QT, E, P: Copy, C: Copy, G: Clone, X: Clone, N: Clone, A>(
    hooks: &QemuHooks<QT, E>,
    registry: &mut HookRegistry<P, C>,
    generation_hook: Hook<P, C, G>,
    execution_hook_1: Hook<P, C, X>,
    execution_hook_2: Hook<P, C, X>,
    execution_hook_4: Hook<P, C, X>,
    execution_hook_8: Hook<P, C, X>,
    execution_hook_n: Hook<P, C, N>,
    install: A,
    id: HookId,
) where A: FnOnce(&E, AddAccessHooks<P, G, X, N>) -> HookId
    requires
        call_ensures(
            QemuHooks::<QT, E>::reads::<P, C, G, X, N, A>,
            (
                hooks,
                registry,
                generation_hook,
                execution_hook_1,
                execution_hook_2,
                execution_hook_4,
                execution_hook_8,
                execution_hook_n,
                install,
            ),
            id,
        ),
    ensures
        exists|request: AddAccessHooks<P, G, X, N>|
            {
                &&& #[trigger] call_ensures(install, (hooks.emulator(), request), id)
                &&& is_slot(request.data, old(registry)@.read.len())
                &&& entered(generation_hook, request.gen, Wrapper::Gen(TableKind::Read))
                &&& entered(execution_hook_1, request.exec1, Wrapper::Exec(TableKind::Read, 0))
                &&& entered(execution_hook_2, request.exec2, Wrapper::Exec(TableKind::Read, 1))
                &&& entered(execution_hook_4, request.exec4, Wrapper::Exec(TableKind::Read, 2))
                &&& entered(execution_hook_8, request.exec8, Wrapper::Exec(TableKind::Read, 3))
                &&& entered(execution_hook_n, request.execn, Wrapper::Exec(TableKind::Read, 4))
            },
        final(registry)@ == (RegistryModel {
            read: final(registry)@.read,
            ..old(registry)@
        }),
        final(registry)@.read.len() == old(registry)@.read.len() + 1,
        final(registry)@.read.drop_last() == old(registry)@.read,
        ({
            let group = final(registry)@.read.last();
            &&& group.id == id
            &&& kept(generation_hook, group.gen)
            &&& group.post_gen is Empty
            &&& group.execs.len() == 5
            &&& kept(execution_hook_1, group.execs[0])
            &&& kept(execution_hook_2, group.execs[1])
            &&& kept(execution_hook_4, group.execs[2])
            &&& kept(execution_hook_8, group.execs[3])
            &&& kept(execution_hook_n, group.execs[4])
        }),
{
}

/// Each hook on writes is entered by the entry point of its role and size, whatever
/// the others are, and kept at its size in a group of its own, behind those that
/// were there.
pub proof fn law_writes<QT, E, P: Copy, C: Copy, G: Clone, X: Clone, N: Clone, A>(
    hooks: &QemuHooks<QT, E>,
    registry: &mut HookRegistry<P, C>,
    generation_hook: Hook<P, C, G>,
    execution_hook_1: Hook<P, C, X>,
    execution_hook_2: Hook<P, C, X>,
    execution_hook_4: Hook<P, C, X>,
    execution_hook_8: Hook<P, C, X>,
    execution_hook_n: Hook<P, C, N>,
    install: A,
    id: HookId,
) where A: FnOnce(&E, AddAccessHooks<P, G, X, N>) -> HookId
    requires
        call_ensures(
            QemuHooks::<QT, E>::writes::<P, C, G, X, N, A>,
            (
                hooks,
                registry,
                generation_hook,
                execution_hook_1,
                execution_hook_2,
                execution_hook_4,
                execution_hook_8,
                execution_hook_n,
                install,
            ),
            id,
        ),
    ensures
        exists|request: AddAccessHooks<P, G, X, N>|
            {
                &&& #[trigger] call_ensures(install, (hooks.emulator(), request), id)
                &&& is_slot(request.data, old(registry)@.write.len())
                &&& entered(generation_hook, request.gen, Wrapper::Gen(TableKind::Write))
                &&& entered(execution_hook_1, request.exec1, Wrapper::Exec(TableKind::Write, 0))
                &&& entered(execution_hook_2, request.exec2, Wrapper::Exec(TableKind::Write, 1))
                &&& entered(execution_hook_4, request.exec4, Wrapper::Exec(TableKind::Write, 2))
                &&& entered(execution_hook_8, request.exec8, Wrapper::Exec(TableKind::Write, 3))
                &&& entered(execution_hook_n, request.execn, Wrapper::Exec(TableKind::Write, 4))
            },
        final(registry)@ == (RegistryModel {
            write: final(registry)@.write,
            ..old(registry)@
        }),
        final(registry)@.write.len() == old(registry)@.write.len() + 1,
        final(registry)@.write.drop_last() == old(registry)@.write,
        ({
            let group = final(registry)@.write.last();
            &&& group.id == id
            &&& kept(generation_hook, group.gen)
            &&& group.post_gen is Empty
            &&& group.execs.len() == 5
            &&& kept(execution_hook_1, group.execs[0])
            &&& kept(execution_hook_2, group.execs[1])
            &&& kept(execution_hook_4, group.execs[2])
            &&& kept(execution_hook_8, group.execs[3])
            &&& kept(execution_hook_n, group.execs[4])
        }),
{
}

/// Each hook on comparisons is entered by the entry point of its role and size,
/// whatever the others are, and kept at its size in a group of its own, behind
/// those that were there.
pub proof fn law_cmps<
    QT,
    E,
    P: Copy,
    C: Copy,
    G: Clone,
    X1: Clone,
    X2: Clone,
    X4: Clone,
    X8: Clone,
    A,
>(
    hooks: &QemuHooks<QT, E>,
    registry: &mut HookRegistry<P, C>,
    generation_hook: Hook<P, C, G>,
    execution_hook_1: Hook<P, C, X1>,
    execution_hook_2: Hook<P, C, X2>,
    execution_hook_4: Hook<P, C, X4>,
    execution_hook_8: Hook<P, C, X8>,
    install: A,
    id: HookId,
) where A: FnOnce(&E, AddCompareHooks<P, G, X1, X2, X4, X8>) -> HookId
    requires
        call_ensures(
            QemuHooks::<QT, E>::cmps::<P, C, G, X1, X2, X4, X8, A>,
            (
                hooks,
                registry,
                generation_hook,
                execution_hook_1,
                execution_hook_2,
                execution_hook_4,
                execution_hook_8,
                install,
            ),
            id,
        ),
    ensures
        exists|request: AddCompareHooks<P, G, X1, X2, X4, X8>|
            {
                &&& #[trigger] call_ensures(install, (hooks.emulator(), request), id)
                &&& is_slot(request.data, old(registry)@.compare.len())
                &&& entered(generation_hook, request.gen, Wrapper::Gen(TableKind::Compare))
                &&& entered(execution_hook_1, request.exec1, Wrapper::Exec(TableKind::Compare, 0))
                &&& entered(execution_hook_2, request.exec2, Wrapper::Exec(TableKind::Compare, 1))
                &&& entered(execution_hook_4, request.exec4, Wrapper::Exec(TableKind::Compare, 2))
                &&& entered(execution_hook_8, request.exec8, Wrapper::Exec(TableKind::Compare, 3))
            },
        final(registry)@ == (RegistryModel {
            compare: final(registry)@.compare,
            ..old(registry)@
        }),
        final(registry)@.compare.len() == old(registry)@.compare.len() + 1,
        final(registry)@.compare.drop_last() == old(registry)@.compare,
        ({
            let group = final(registry)@.compare.last();
            &&& group.id == id
            &&& kept(generation_hook, group.gen)
            &&& group.post_gen is Empty
            &&& group.execs.len() == 4
            &&& kept(execution_hook_1, group.execs[0])
            &&& kept(execution_hook_2, group.execs[1])
            &&& kept(execution_hook_4, group.execs[2])
            &&& kept(execution_hook_8, group.execs[3])
        }),
{
}

/// A hook on an instruction is asked of the emulator once: a function is
/// handed back to the entry point of this kind for functions, a closure is kept
/// last and found by its slot, and a raw function is called as it is. Without a
/// hook the id is 0. Nothing but a closure is kept.
pub proof fn law_instruction<QT, E, P: Copy, C: Copy, R: Clone, A>(
    hooks: &QemuHooks<QT, E>,
    registry: &mut HookRegistry<P, C>,
    addr: GuestAddr,
    hook: Hook<P, C, R>,
    invalidate_block: bool,
    install: A,
    id: HookId,
) where A: FnOnce(&E, SetHook<P, R>) -> HookId
    requires
        call_ensures(
            QemuHooks::<QT, E>::instruction::<P, C, R, A>,
            (hooks, registry, addr, hook, invalidate_block, install),
            id,
        ),
    ensures
        !(hook is Empty) ==> exists|request: SetHook<P, R>|
            {
                &&& #[trigger] call_ensures(install, (hooks.emulator(), request), id)
                &&& request.addr == addr
                &&& request.invalidate_block == invalidate_block
                &&& match hook {
                    Hook::Function(f) => {
                        &&& request.data == HookData::Function(f)
                        &&& request.callback == Callback::<R>::Wrapper(
                            Wrapper::Func(HookKind::Generic),
                        )
                    },
                    Hook::Closure(_) => {
                        &&& is_slot(request.data, old(registry)@.generic.len())
                        &&& request.callback == Callback::<R>::Wrapper(
                            Wrapper::Closure(HookKind::Generic),
                        )
                    },
                    Hook::Raw(r) => {
                        &&& request.data is Null
                        &&& request.callback == Callback::Raw(r)
                    },
                    Hook::Empty => false,
                }
            },
        hook is Empty ==> id == HookId(0),
        !(hook is Closure) ==> final(registry)@ == old(registry)@,
        hook matches Hook::Closure(c) ==> final(registry)@ == (RegistryModel {
            generic: old(registry)@.generic.push((id, c)),
            ..old(registry)@
        }),
{
}

/// A function as a hook on an instruction is handed back to the entry point
/// of this kind for functions.
pub proof fn law_instruction_function<QT, E, P: Copy, R, A>(
    hooks: &QemuHooks<QT, E>,
    addr: GuestAddr,
    hook: P,
    invalidate_block: bool,
    install: A,
    id: HookId,
) where A: FnOnce(&E, SetHook<P, R>) -> HookId
    requires
        call_ensures(
            QemuHooks::<QT, E>::instruction_function::<P, R, A>,
            (hooks, addr, hook, invalidate_block, install),
            id,
        ),
    ensures
        exists|request: SetHook<P, R>|
            {
                &&& #[trigger] call_ensures(install, (hooks.emulator(), request), id)
                &&& request.addr == addr
                &&& request.invalidate_block == invalidate_block
                &&& request.data == HookData::Function(hook)
                &&& request.callback == Callback::<R>::Wrapper(
                    Wrapper::Func(HookKind::Generic),
                )
            },
{
}

/// A closure as a hook on an instruction is kept with its id behind those of
/// this kind that were there, and the emulator hands its slot to the entry point
/// of this kind for closures.
pub proof fn law_instruction_closure<QT, E, P: Copy, C: Copy, R, A>(
    hooks: &QemuHooks<QT, E>,
    registry: &mut HookRegistry<P, C>,
    addr: GuestAddr,
    hook: C,
    invalidate_block: bool,
    install: A,
    id: HookId,
) where A: FnOnce(&E, SetHook<P, R>) -> HookId
    requires
        call_ensures(
            QemuHooks::<QT, E>::instruction_closure::<P, C, R, A>,
            (hooks, registry, addr, hook, invalidate_block, install),
            id,
        ),
    ensures
        exists|request: SetHook<P, R>|
            {
                &&& #[trigger] call_ensures(install, (hooks.emulator(), request), id)
                &&& request.addr == addr
                &&& request.invalidate_block == invalidate_block
                &&& is_slot(request.data, old(registry)@.generic.len())
                &&& request.callback == Callback::<R>::Wrapper(
                    Wrapper::Closure(HookKind::Generic),
                )
            },
        final(registry)@ == (RegistryModel {
            generic: old(registry)@.generic.push((id, hook)),
            ..old(registry)@
        }),
{
}

/// A hook on the backdoor is asked of the emulator once: a function is
/// handed back to the entry point of this kind for functions, a closure is kept
/// last and found by its slot, and a raw function is called as it is. Without a
/// hook the id is 0. Nothing but a closure is kept.
pub proof fn law_backdoor<QT, E, P: Copy, C: Copy, R: Clone, A>(
    hooks: &QemuHooks<QT, E>,
    registry: &mut HookRegistry<P, C>,
    hook: Hook<P, C, R>,
    install: A,
    id: HookId,
) where A: FnOnce(&E, AddHook<P, R>) -> HookId
    requires
        call_ensures(
            QemuHooks::<QT, E>::backdoor::<P, C, R, A>,
            (hooks, registry, hook, install),
            id,
        ),
    ensures
        !(hook is Empty) ==> exists|request: AddHook<P, R>|
            {
                &&& #[trigger] call_ensures(install, (hooks.emulator(), request), id)
                &&& match hook {
                    Hook::Function(f) => {
                        &&& request.data == HookData::Function(f)
                        &&& request.callback == Callback::<R>::Wrapper(
                            Wrapper::Func(HookKind::Backdoor),
                        )
                    },
                    Hook::Closure(_) => {
                        &&& is_slot(request.data, old(registry)@.backdoor.len())
                        &&& request.callback == Callback::<R>::Wrapper(
                            Wrapper::Closure(HookKind::Backdoor),
                        )
                    },
                    Hook::Raw(r) => {
                        &&& request.data is Null
                        &&& request.callback == Callback::Raw(r)
                    },
                    Hook::Empty => false,
                }
            },
        hook is Empty ==> id == HookId(0),
        !(hook is Closure) ==> final(registry)@ == old(registry)@,
        hook matches Hook::Closure(c) ==> final(registry)@ == (RegistryModel {
            backdoor: old(registry)@.backdoor.push((id, c)),
            ..old(registry)@
        }),
{
}

/// A function as a hook on the backdoor is handed back to the entry point
/// of this kind for functions.
pub proof fn law_backdoor_function<QT, E, P: Copy, R, A>(
    hooks: &QemuHooks<QT, E>,
    hook: P,
    install: A,
    id: HookId,
) where A: FnOnce(&E, AddHook<P, R>) -> HookId
    requires
        call_ensures(
            QemuHooks::<QT, E>::backdoor_function::<P, R, A>,
            (hooks, hook, install),
            id,
        ),
    ensures
        exists|request: AddHook<P, R>|
            {
                &&& #[trigger] call_ensures(install, (hooks.emulator(), request), id)
                &&& request.data == HookData::Function(hook)
                &&& request.callback == Callback::<R>::Wrapper(
                    Wrapper::Func(HookKind::Backdoor),
                )
            },
{
}

/// A closure as a hook on the backdoor is kept with its id behind those of
/// this kind that were there, and the emulator hands its slot to the entry point
/// of this kind for closures.
pub proof fn law_backdoor_closure<QT, E, P: Copy, C: Copy, R, A>(
    hooks: &QemuHooks<QT, E>,
    registry: &mut HookRegistry<P, C>,
    hook: C,
    install: A,
    id: HookId,
) where A: FnOnce(&E, AddHook<P, R>) -> HookId
    requires
        call_ensures(
            QemuHooks::<QT, E>::backdoor_closure::<P, C, R, A>,
            (hooks, registry, hook, install),
            id,
        ),
    ensures
        exists|request: AddHook<P, R>|
            {
                &&& #[trigger] call_ensures(install, (hooks.emulator(), request), id)
                &&& is_slot(request.data, old(registry)@.backdoor.len())
                &&& request.callback == Callback::<R>::Wrapper(
                    Wrapper::Closure(HookKind::Backdoor),
                )
            },
        final(registry)@ == (RegistryModel {
            backdoor: old(registry)@.backdoor.push((id, hook)),
            ..old(registry)@
        }),
{
}

/// A hook on system calls is asked of the emulator once: a function is
/// handed back to the entry point of this kind for functions, a closure is kept
/// last and found by its slot, and a raw function is called as it is. Without a
/// hook the id is 0. Nothing but a closure is kept.
pub proof fn law_syscalls<QT, E, P: Copy, C: Copy, R: Clone, A>(
    hooks: &QemuHooks<QT, E>,
    registry: &mut HookRegistry<P, C>,
    hook: Hook<P, C, R>,
    install: A,
    id: HookId,
) where A: FnOnce(&E, AddHook<P, R>) -> HookId
    requires
        call_ensures(
            QemuHooks::<QT, E>::syscalls::<P, C, R, A>,
            (hooks, registry, hook, install),
            id,
        ),
    ensures
        !(hook is Empty) ==> exists|request: AddHook<P, R>|
            {
                &&& #[trigger] call_ensures(install, (hooks.emulator(), request), id)
                &&& match hook {
                    Hook::Function(f) => {
                        &&& request.data == HookData::Function(f)
                        &&& request.callback == Callback::<R>::Wrapper(
                            Wrapper::Func(HookKind::PreSyscall),
                        )
                    },
                    Hook::Closure(_) => {
                        &&& is_slot(request.data, old(registry)@.pre_syscall.len())
                        &&& request.callback == Callback::<R>::Wrapper(
                            Wrapper::Closure(HookKind::PreSyscall),
                        )
                    },
                    Hook::Raw(r) => {
                        &&& request.data is Null
                        &&& request.callback == Callback::Raw(r)
                    },
                    Hook::Empty => false,
                }
            },
        hook is Empty ==> id == HookId(0),
        !(hook is Closure) ==> final(registry)@ == old(registry)@,
        hook matches Hook::Closure(c) ==> final(registry)@ == (RegistryModel {
            pre_syscall: old(registry)@.pre_syscall.push((id, c)),
            ..old(registry)@
        }),
{
}

/// A function as a hook on system calls is handed back to the entry point
/// of this kind for functions.
pub proof fn law_syscalls_function<QT, E, P: Copy, R, A>(
    hooks: &QemuHooks<QT, E>,
    hook: P,
    install: A,
    id: HookId,
) where A: FnOnce(&E, AddHook<P, R>) -> HookId
    requires
        call_ensures(
            QemuHooks::<QT, E>::syscalls_function::<P, R, A>,
            (hooks, hook, install),
            id,
        ),
    ensures
        exists|request: AddHook<P, R>|
            {
                &&& #[trigger] call_ensures(install, (hooks.emulator(), request), id)
                &&& request.data == HookData::Function(hook)
                &&& request.callback == Callback::<R>::Wrapper(
                    Wrapper::Func(HookKind::PreSyscall),
                )
            },
{
}

/// A closure as a hook on system calls is kept with its id behind those of
/// this kind that were there, and the emulator hands its slot to the entry point
/// of this kind for closures.
pub proof fn law_syscalls_closure<QT, E, P: Copy, C: Copy, R, A>(
    hooks: &QemuHooks<QT, E>,
    registry: &mut HookRegistry<P, C>,
    hook: C,
    install: A,
    id: HookId,
) where A: FnOnce(&E, AddHook<P, R>) -> HookId
    requires
        call_ensures(
            QemuHooks::<QT, E>::syscalls_closure::<P, C, R, A>,
            (hooks, registry, hook, install),
            id,
        ),
    ensures
        exists|request: AddHook<P, R>|
            {
                &&& #[trigger] call_ensures(install, (hooks.emulator(), request), id)
                &&& is_slot(request.data, old(registry)@.pre_syscall.len())
                &&& request.callback == Callback::<R>::Wrapper(
                    Wrapper::Closure(HookKind::PreSyscall),
                )
            },
        final(registry)@ == (RegistryModel {
            pre_syscall: old(registry)@.pre_syscall.push((id, hook)),
            ..old(registry)@
        }),
{
}

/// A hook on returned system calls is asked of the emulator once: a function is
/// handed back to the entry point of this kind for functions, a closure is kept
/// last and found by its slot, and a raw function is called as it is. Without a
/// hook the id is 0. Nothing but a closure is kept.
pub proof fn law_after_syscalls<QT, E, P: Copy, C: Copy, R: Clone, A>(
    hooks: &QemuHooks<QT, E>,
    registry: &mut HookRegistry<P, C>,
    hook: Hook<P, C, R>,
    install: A,
    id: HookId,
) where A: FnOnce(&E, AddHook<P, R>) -> HookId
    requires
        call_ensures(
            QemuHooks::<QT, E>::after_syscalls::<P, C, R, A>,
            (hooks, registry, hook, install),
            id,
        ),
    ensures
        !(hook is Empty) ==> exists|request: AddHook<P, R>|
            {
                &&& #[trigger] call_ensures(install, (hooks.emulator(), request), id)
                &&& match hook {
                    Hook::Function(f) => {
                        &&& request.data == HookData::Function(f)
                        &&& request.callback == Callback::<R>::Wrapper(
                            Wrapper::Func(HookKind::PostSyscall),
                        )
                    },
                    Hook::Closure(_) => {
                        &&& is_slot(request.data, old(registry)@.post_syscall.len())
                        &&& request.callback == Callback::<R>::Wrapper(
                            Wrapper::Closure(HookKind::PostSyscall),
                        )
                    },
                    Hook::Raw(r) => {
                        &&& request.data is Null
                        &&& request.callback == Callback::Raw(r)
                    },
                    Hook::Empty => false,
                }
            },
        hook is Empty ==> id == HookId(0),
        !(hook is Closure) ==> final(registry)@ == old(registry)@,
        hook matches Hook::Closure(c) ==> final(registry)@ == (RegistryModel {
            post_syscall: old(registry)@.post_syscall.push((id, c)),
            ..old(registry)@
        }),
{
}

/// A function as a hook on returned system calls is handed back to the entry point
/// of this kind for functions.
pub proof fn law_after_syscalls_function<QT, E, P: Copy, R, A>(
    hooks: &QemuHooks<QT, E>,
    hook: P,
    install: A,
    id: HookId,
) where A: FnOnce(&E, AddHook<P, R>) -> HookId
    requires
        call_ensures(
            QemuHooks::<QT, E>::after_syscalls_function::<P, R, A>,
            (hooks, hook, install),
            id,
        ),
    ensures
        exists|request: AddHook<P, R>|
            {
                &&& #[trigger] call_ensures(install, (hooks.emulator(), request), id)
                &&& request.data == HookData::Function(hook)
                &&& request.callback == Callback::<R>::Wrapper(
                    Wrapper::Func(HookKind::PostSyscall),
                )
            },
{
}

/// A closure as a hook on returned system calls is kept with its id behind those of
/// this kind that were there, and the emulator hands its slot to the entry point
/// of this kind for closures.
pub proof fn law_after_syscalls_closure<QT, E, P: Copy, C: Copy, R, A>(
    hooks: &QemuHooks<QT, E>,
    registry: &mut HookRegistry<P, C>,
    hook: C,
    install: A,
    id: HookId,
) where A: FnOnce(&E, AddHook<P, R>) -> HookId
    requires
        call_ensures(
            QemuHooks::<QT, E>::after_syscalls_closure::<P, C, R, A>,
            (hooks, registry, hook, install),
            id,
        ),
    ensures
        exists|request: AddHook<P, R>|
            {
                &&& #[trigger] call_ensures(install, (hooks.emulator(), request), id)
                &&& is_slot(request.data, old(registry)@.post_syscall.len())
                &&& request.callback == Callback::<R>::Wrapper(
                    Wrapper::Closure(HookKind::PostSyscall),
                )
            },
        final(registry)@ == (RegistryModel {
            post_syscall: old(registry)@.post_syscall.push((id, hook)),
            ..old(registry)@
        }),
{
}

/// A hook on new threads is asked of the emulator once: a function is
/// handed back to the entry point of this kind for functions, a closure is kept
/// last and found by its slot, and a raw function is called as it is. Without a
/// hook the id is 0. Nothing but a closure is kept.
pub proof fn law_thread_creation<QT, E, P: Copy, C: Copy, R: Clone, A>(
    hooks: &QemuHooks<QT, E>,
    registry: &mut HookRegistry<P, C>,
    hook: Hook<P, C, R>,
    install: A,
    id: HookId,
) where A: FnOnce(&E, AddHook<P, R>) -> HookId
    requires
        call_ensures(
            QemuHooks::<QT, E>::thread_creation::<P, C, R, A>,
            (hooks, registry, hook, install),
            id,
        ),
    ensures
        !(hook is Empty) ==> exists|request: AddHook<P, R>|
            {
                &&& #[trigger] call_ensures(install, (hooks.emulator(), request), id)
                &&& match hook {
                    Hook::Function(f) => {
                        &&& request.data == HookData::Function(f)
                        &&& request.callback == Callback::<R>::Wrapper(
                            Wrapper::Func(HookKind::NewThread),
                        )
                    },
                    Hook::Closure(_) => {
                        &&& is_slot(request.data, old(registry)@.new_thread.len())
                        &&& request.callback == Callback::<R>::Wrapper(
                            Wrapper::Closure(HookKind::NewThread),
                        )
                    },
                    Hook::Raw(r) => {
                        &&& request.data is Null
                        &&& request.callback == Callback::Raw(r)
                    },
                    Hook::Empty => false,
                }
            },
        hook is Empty ==> id == HookId(0),
        !(hook is Closure) ==> final(registry)@ == old(registry)@,
        hook matches Hook::Closure(c) ==> final(registry)@ == (RegistryModel {
            new_thread: old(registry)@.new_thread.push((id, c)),
            ..old(registry)@
        }),
{
}

/// A function as a hook on new threads is handed back to the entry point
/// of this kind for functions.
pub proof fn law_thread_creation_function<QT, E, P: Copy, R, A>(
    hooks: &QemuHooks<QT, E>,
    hook: P,
    install: A,
    id: HookId,
) where A: FnOnce(&E, AddHook<P, R>) -> HookId
    requires
        call_ensures(
            QemuHooks::<QT, E>::thread_creation_function::<P, R, A>,
            (hooks, hook, install),
            id,
        ),
    ensures
        exists|request: AddHook<P, R>|
            {
                &&& #[trigger] call_ensures(install, (hooks.emulator(), request), id)
                &&& request.data == HookData::Function(hook)
                &&& request.callback == Callback::<R>::Wrapper(
                    Wrapper::Func(HookKind::NewThread),
                )
            },
{
}

/// A closure as a hook on new threads is kept with its id behind those of
/// this kind that were there, and the emulator hands its slot to the entry point
/// of this kind for closures.
pub proof fn law_thread_creation_closure<QT, E, P: Copy, C: Copy, R, A>(
    hooks: &QemuHooks<QT, E>,
    registry: &mut HookRegistry<P, C>,
    hook: C,
    install: A,
    id: HookId,
) where A: FnOnce(&E, AddHook<P, R>) -> HookId
    requires
        call_ensures(
            QemuHooks::<QT, E>::thread_creation_closure::<P, C, R, A>,
            (hooks, registry, hook, install),
            id,
        ),
    ensures
        exists|request: AddHook<P, R>|
            {
                &&& #[trigger] call_ensures(install, (hooks.emulator(), request), id)
                &&& is_slot(request.data, old(registry)@.new_thread.len())
                &&& request.callback == Callback::<R>::Wrapper(
                    Wrapper::Closure(HookKind::NewThread),
                )
            },
        final(registry)@ == (RegistryModel {
            new_thread: old(registry)@.new_thread.push((id, hook)),
            ..old(registry)@
        }),
{
}

/// A closure as a hook on an instruction runs, and no other does, whenever the emulator
/// hands back what it was given with it, however many hooks came before and
/// after.
pub proof fn law_instruction_closure_runs<QT, E, P: Copy, C: Copy, R, A, B>(
    hooks: &QemuHooks<QT, E>,
    registry: &mut HookRegistry<P, C>,
    addr: GuestAddr,
    hook: C,
    invalidate_block: bool,
    install: A,
    id: HookId,
    later: HookRegistry<P, C>,
    instance: Instance<P>,
    args: B,
) where A: FnOnce(&E, SetHook<P, R>) -> HookId
    requires
        call_ensures(
            QemuHooks::<QT, E>::instruction_closure::<P, C, R, A>,
            (hooks, registry, addr, hook, invalidate_block, install),
            id,
        ),
        final(registry)@.generic.is_prefix_of(later@.generic),
        instance@.place is Some,
    ensures
        exists|request: SetHook<P, R>|
            {
                &&& #[trigger] call_ensures(install, (hooks.emulator(), request), id)
                &&& request.callback matches Callback::Wrapper(wrapper)
                &&& forall|call: Option<HookCall<P, C, B>>| #[trigger]
                    call_ensures(
                        HookRegistry::<P, C>::hook_wrapper::<B>,
                        (&later, &instance, wrapper, request.data, args),
                        call,
                    ) ==> call == Some(
                        HookCall {
                            hooks: instance@.place->0,
                            target: HookTarget::<P, C>::Closure(hook),
                            args,
                        },
                    )
            },
{
    let slot = old(registry)@.generic.len() as int;
    assert(final(registry)@.generic[slot] == (id, hook));
    assert(later@.generic[slot] == (id, hook));
}

/// A closure as a hook on the backdoor runs, and no other does, whenever the emulator
/// hands back what it was given with it, however many hooks came before and
/// after.
pub proof fn law_backdoor_closure_runs<QT, E, P: Copy, C: Copy, R, A, B>(
    hooks: &QemuHooks<QT, E>,
    registry: &mut HookRegistry<P, C>,
    hook: C,
    install: A,
    id: HookId,
    later: HookRegistry<P, C>,
    instance: Instance<P>,
    args: B,
) where A: FnOnce(&E, AddHook<P, R>) -> HookId
    requires
        call_ensures(
            QemuHooks::<QT, E>::backdoor_closure::<P, C, R, A>,
            (hooks, registry, hook, install),
            id,
        ),
        final(registry)@.backdoor.is_prefix_of(later@.backdoor),
        instance@.place is Some,
    ensures
        exists|request: AddHook<P, R>|
            {
                &&& #[trigger] call_ensures(install, (hooks.emulator(), request), id)
                &&& request.callback matches Callback::Wrapper(wrapper)
                &&& forall|call: Option<HookCall<P, C, B>>| #[trigger]
                    call_ensures(
                        HookRegistry::<P, C>::hook_wrapper::<B>,
                        (&later, &instance, wrapper, request.data, args),
                        call,
                    ) ==> call == Some(
                        HookCall {
                            hooks: instance@.place->0,
                            target: HookTarget::<P, C>::Closure(hook),
                            args,
                        },
                    )
            },
{
    let slot = old(registry)@.backdoor.len() as int;
    assert(final(registry)@.backdoor[slot] == (id, hook));
    assert(later@.backdoor[slot] == (id, hook));
}

/// A closure as a hook on system calls runs, and no other does, whenever the emulator
/// hands back what it was given with it, however many hooks came before and
/// after.
pub proof fn law_syscalls_closure_runs<QT, E, P: Copy, C: Copy, R, A, B>(
    hooks: &QemuHooks<QT, E>,
    registry: &mut HookRegistry<P, C>,
    hook: C,
    install: A,
    id: HookId,
    later: HookRegistry<P, C>,
    instance: Instance<P>,
    args: B,
) where A: FnOnce(&E, AddHook<P, R>) -> HookId
    requires
        call_ensures(
            QemuHooks::<QT, E>::syscalls_closure::<P, C, R, A>,
            (hooks, registry, hook, install),
            id,
        ),
        final(registry)@.pre_syscall.is_prefix_of(later@.pre_syscall),
        instance@.place is Some,
    ensures
        exists|request: AddHook<P, R>|
            {
                &&& #[trigger] call_ensures(install, (hooks.emulator(), request), id)
                &&& request.callback matches Callback::Wrapper(wrapper)
                &&& forall|call: Option<HookCall<P, C, B>>| #[trigger]
                    call_ensures(
                        HookRegistry::<P, C>::hook_wrapper::<B>,
                        (&later, &instance, wrapper, request.data, args),
                        call,
                    ) ==> call == Some(
                        HookCall {
                            hooks: instance@.place->0,
                            target: HookTarget::<P, C>::Closure(hook),
                            args,
                        },
                    )
            },
{
    let slot = old(registry)@.pre_syscall.len() as int;
    assert(final(registry)@.pre_syscall[slot] == (id, hook));
    assert(later@.pre_syscall[slot] == (id, hook));
}

/// A closure as a hook on returned system calls runs, and no other does, whenever the emulator
/// hands back what it was given with it, however many hooks came before and
/// after.
pub proof fn law_after_syscalls_closure_runs<QT, E, P: Copy, C: Copy, R, A, B>(
    hooks: &QemuHooks<QT, E>,
    registry: &mut HookRegistry<P, C>,
    hook: C,
    install: A,
    id: HookId,
    later: HookRegistry<P, C>,
    instance: Instance<P>,
    args: B,
) where A: FnOnce(&E, AddHook<P, R>) -> HookId
    requires
        call_ensures(
            QemuHooks::<QT, E>::after_syscalls_closure::<P, C, R, A>,
            (hooks, registry, hook, install),
            id,
        ),
        final(registry)@.post_syscall.is_prefix_of(later@.post_syscall),
        instance@.place is Some,
    ensures
        exists|request: AddHook<P, R>|
            {
                &&& #[trigger] call_ensures(install, (hooks.emulator(), request), id)
                &&& request.callback matches Callback::Wrapper(wrapper)
                &&& forall|call: Option<HookCall<P, C, B>>| #[trigger]
                    call_ensures(
                        HookRegistry::<P, C>::hook_wrapper::<B>,
                        (&later, &instance, wrapper, request.data, args),
                        call,
                    ) ==> call == Some(
                        HookCall {
                            hooks: instance@.place->0,
                            target: HookTarget::<P, C>::Closure(hook),
                            args,
                        },
                    )
            },
{
    let slot = old(registry)@.post_syscall.len() as int;
    assert(final(registry)@.post_syscall[slot] == (id, hook));
    assert(later@.post_syscall[slot] == (id, hook));
}

/// A closure as a hook on new threads runs, and no other does, whenever the emulator
/// hands back what it was given with it, however many hooks came before and
/// after.
pub proof fn law_thread_creation_closure_runs<QT, E, P: Copy, C: Copy, R, A, B>(
    hooks: &QemuHooks<QT, E>,
    registry: &mut HookRegistry<P, C>,
    hook: C,
    install: A,
    id: HookId,
    later: HookRegistry<P, C>,
    instance: Instance<P>,
    args: B,
) where A: FnOnce(&E, AddHook<P, R>) -> HookId
    requires
        call_ensures(
            QemuHooks::<QT, E>::thread_creation_closure::<P, C, R, A>,
            (hooks, registry, hook, install),
            id,
        ),
        final(registry)@.new_thread.is_prefix_of(later@.new_thread),
        instance@.place is Some,
    ensures
        exists|request: AddHook<P, R>|
            {
                &&& #[trigger] call_ensures(install, (hooks.emulator(), request), id)
                &&& request.callback matches Callback::Wrapper(wrapper)
                &&& forall|call: Option<HookCall<P, C, B>>| #[trigger]
                    call_ensures(
                        HookRegistry::<P, C>::hook_wrapper::<B>,
                        (&later, &instance, wrapper, request.data, args),
                        call,
                    ) ==> call == Some(
                        HookCall {
                            hooks: instance@.place->0,
                            target: HookTarget::<P, C>::Closure(hook),
                            args,
                        },
                    )
            },
{
    let slot = old(registry)@.new_thread.len() as int;
    assert(final(registry)@.new_thread[slot] == (id, hook));
    assert(later@.new_thread[slot] == (id, hook));
}

/// Adding a function that runs on a crash sets the crash wrapper, and appends exactly
/// that function to the crash hooks.
pub proof fn law_crash_function<QT, E, P: Copy, C: Copy, A>(
    hooks: &QemuHooks<QT, E>,
    registry: &mut HookRegistry<P, C>,
    hook: P,
    install: A,
) where A: FnOnce(&E, Wrapper)
    requires
        call_ensures(
            QemuHooks::<QT, E>::crash_function::<P, C, A>,
            (hooks, registry, hook, install),
            (),
        ),
    ensures
        call_ensures(install, (hooks.emulator(), Wrapper::Crash), ()),
        final(registry)@ == (RegistryModel {
            crash: old(registry)@.crash.push(HookRepr::Function(hook)),
            ..old(registry)@
        }),
{
}

/// Adding a closure that runs on a crash sets the crash wrapper, and appends exactly
/// that closure to the crash hooks.
pub proof fn law_crash_closure<QT, E, P: Copy, C: Copy, A>(
    hooks: &QemuHooks<QT, E>,
    registry: &mut HookRegistry<P, C>,
    hook: C,
    install: A,
) where A: FnOnce(&E, Wrapper)
    requires
        call_ensures(
            QemuHooks::<QT, E>::crash_closure::<P, C, A>,
            (hooks, registry, hook, install),
            (),
        ),
    ensures
        call_ensures(install, (hooks.emulator(), Wrapper::Crash), ()),
        final(registry)@ == (RegistryModel {
            crash: old(registry)@.crash.push(HookRepr::Closure(hook)),
            ..old(registry)@
        }),
{
}

/// The wrapper of any kind for functions runs the function that it is handed, on
/// the one `QemuHooks`, with the arguments that it got.
pub proof fn law_function_wrapper<P: Copy, C: Copy, A>(
    registry: HookRegistry<P, C>,
    instance: Instance<P>,
    kind: HookKind,
    function: P,
    args: A,
    call: Option<HookCall<P, C, A>>,
)
    requires
        instance@.place is Some,
        call_ensures(
            HookRegistry::<P, C>::hook_wrapper::<A>,
            (&registry, &instance, Wrapper::Func(kind), HookData::Function(function), args),
            call,
        ),
    ensures
        call == Some(
            HookCall {
                hooks: instance@.place->0,
                target: HookTarget::<P, C>::Function(function),
                args,
            },
        ),
{
}

/// The wrapper of a kind for closures runs the closure of that kind in the slot
/// that it is handed.
pub proof fn law_closure_wrapper<P: Copy, C: Copy, A>(
    registry: HookRegistry<P, C>,
    instance: Instance<P>,
    kind: HookKind,
    slot: usize,
    args: A,
    call: Option<HookCall<P, C, A>>,
)
    requires
        instance@.place is Some,
        call_ensures(
            HookRegistry::<P, C>::hook_wrapper::<A>,
            (&registry, &instance, Wrapper::Closure(kind), HookData::Slot(slot), args),
            call,
        ),
    ensures
        ({
            let hooks = instance@.place->0;
            let closures = match kind {
                HookKind::Generic => registry@.generic,
                HookKind::Backdoor => registry@.backdoor,
                HookKind::PreSyscall => registry@.pre_syscall,
                HookKind::PostSyscall => registry@.post_syscall,
                HookKind::NewThread => registry@.new_thread,
            };
            if slot < closures.len() {
                is_run(call, hooks, HookRepr::Closure(closures[slot as int].1), args)
            } else {
                call is None
            }
        }),
{
}

/// The generation wrapper of a kind runs the generation hook of the group of that
/// kind in the slot that it is handed.
pub proof fn law_generation_wrapper<P: Copy, C: Copy, A>(
    registry: HookRegistry<P, C>,
    instance: Instance<P>,
    kind: TableKind,
    slot: usize,
    args: A,
    call: Option<HookCall<P, C, A>>,
)
    requires
        instance@.place is Some,
        call_ensures(
            HookRegistry::<P, C>::hook_wrapper::<A>,
            (&registry, &instance, Wrapper::Gen(kind), HookData::Slot(slot), args),
            call,
        ),
    ensures
        ({
            let hooks = instance@.place->0;
            let groups = match kind {
                TableKind::Edge => registry@.edge,
                TableKind::Block => registry@.block,
                TableKind::Read => registry@.read,
                TableKind::Write => registry@.write,
                TableKind::Compare => registry@.compare,
            };
            if slot < groups.len() {
                is_run(call, hooks, groups[slot as int].gen, args)
            } else {
                call is None
            }
        }),
{
}

/// The post-generation wrapper of a kind runs the post-generation hook of the
/// group of that kind in the slot that it is handed.
pub proof fn law_post_generation_wrapper<P: Copy, C: Copy, A>(
    registry: HookRegistry<P, C>,
    instance: Instance<P>,
    kind: TableKind,
    slot: usize,
    args: A,
    call: Option<HookCall<P, C, A>>,
)
    requires
        instance@.place is Some,
        call_ensures(
            HookRegistry::<P, C>::hook_wrapper::<A>,
            (&registry, &instance, Wrapper::PostGen(kind), HookData::Slot(slot), args),
            call,
        ),
    ensures
        ({
            let hooks = instance@.place->0;
            let groups = match kind {
                TableKind::Edge => registry@.edge,
                TableKind::Block => registry@.block,
                TableKind::Read => registry@.read,
                TableKind::Write => registry@.write,
                TableKind::Compare => registry@.compare,
            };
            if slot < groups.len() {
                is_run(call, hooks, groups[slot as int].post_gen, args)
            } else {
                call is None
            }
        }),
{
}

/// An execution wrapper of a kind runs the execution hook with its number in the
/// group of that kind in the slot that it is handed.
pub proof fn law_execution_wrapper<P: Copy, C: Copy, A>(
    registry: HookRegistry<P, C>,
    instance: Instance<P>,
    kind: TableKind,
    index: usize,
    slot: usize,
    args: A,
    call: Option<HookCall<P, C, A>>,
)
    requires
        instance@.place is Some,
        call_ensures(
            HookRegistry::<P, C>::hook_wrapper::<A>,
            (&registry, &instance, Wrapper::Exec(kind, index), HookData::Slot(slot), args),
            call,
        ),
    ensures
        ({
            let hooks = instance@.place->0;
            let groups = match kind {
                TableKind::Edge => registry@.edge,
                TableKind::Block => registry@.block,
                TableKind::Read => registry@.read,
                TableKind::Write => registry@.write,
                TableKind::Compare => registry@.compare,
            };
            if slot < groups.len() && index < groups[slot as int].execs.len() {
                is_run(call, hooks, groups[slot as int].execs[index as int], args)
            } else {
                call is None
            }
        }),
{
}

/// Without a function, a wrapper for functions runs nothing, and without a slot
/// no other wrapper does. The crash wrapper is handed nothing to run.
pub proof fn law_nothing_to_run<P: Copy, C: Copy, A>(
    registry: HookRegistry<P, C>,
    instance: Instance<P>,
    wrapper: Wrapper,
    data: HookData<P>,
    args: A,
    call: Option<HookCall<P, C, A>>,
)
    requires
        instance@.place is Some,
        call_ensures(
            HookRegistry::<P, C>::hook_wrapper::<A>,
            (&registry, &instance, wrapper, data, args),
            call,
        ),
        match wrapper {
            Wrapper::Func(_) => !(data is Function),
            Wrapper::Crash => true,
            _ => !(data is Slot),
        },
    ensures
        call is None,
{
}

/// Without crash hooks nothing runs on a crash.
pub proof fn law_no_crash_hooks<P: Copy, C: Copy>(
    registry: HookRegistry<P, C>,
    instance: Instance<P>,
    target_sig: i32,
    calls: Vec<HookCall<P, C, i32>>,
)
    requires
        instance@.place is Some,
        registry@.crash.len() == 0,
        call_ensures(
            HookRegistry::<P, C>::crash_hook_wrapper,
            (&registry, &instance, target_sig),
            calls,
        ),
    ensures
        calls@.len() == 0,
{
}

/// With one crash hook more, the same runs on a crash as without it, and then
/// that hook, on the same `QemuHooks` and with the same signal.
pub proof fn law_one_crash_hook_more<P: Copy, C: Copy>(
    fewer: HookRegistry<P, C>,
    more: HookRegistry<P, C>,
    hook: HookRepr<P, C>,
    instance: Instance<P>,
    target_sig: i32,
    earlier: Vec<HookCall<P, C, i32>>,
    calls: Vec<HookCall<P, C, i32>>,
)
    requires
        instance@.place is Some,
        more@.crash == fewer@.crash.push(hook),
        call_ensures(
            HookRegistry::<P, C>::crash_hook_wrapper,
            (&fewer, &instance, target_sig),
            earlier,
        ),
        call_ensures(
            HookRegistry::<P, C>::crash_hook_wrapper,
            (&more, &instance, target_sig),
            calls,
        ),
    ensures
        match hook {
            HookRepr::Function(f) => calls@ == earlier@.push(
                HookCall {
                    hooks: instance@.place->0,
                    target: HookTarget::<P, C>::Function(f),
                    args: target_sig,
                },
            ),
            HookRepr::Closure(c) => calls@ == earlier@.push(
                HookCall {
                    hooks: instance@.place->0,
                    target: HookTarget::<P, C>::Closure(c),
                    args: target_sig,
                },
            ),
            HookRepr::Empty => calls@ == earlier@,
        },
{
    assert(more@.crash.drop_last() =~= fewer@.crash);
}

/// A function that was added as a crash hook runs on a crash, once, behind all
/// that ran before it was added, whatever the others are.
pub proof fn law_crash_function_runs<QT, E, P: Copy, C: Copy, A>(
    hooks: &QemuHooks<QT, E>,
    registry: &mut HookRegistry<P, C>,
    hook: P,
    install: A,
    instance: Instance<P>,
    target_sig: i32,
    earlier: Vec<HookCall<P, C, i32>>,
    calls: Vec<HookCall<P, C, i32>>,
) where A: FnOnce(&E, Wrapper)
    requires
        instance@.place is Some,
        call_ensures(
            HookRegistry::<P, C>::crash_hook_wrapper,
            (&*old(registry), &instance, target_sig),
            earlier,
        ),
        call_ensures(
            QemuHooks::<QT, E>::crash_function::<P, C, A>,
            (hooks, registry, hook, install),
            (),
        ),
        call_ensures(
            HookRegistry::<P, C>::crash_hook_wrapper,
            (&*final(registry), &instance, target_sig),
            calls,
        ),
    ensures
        calls@.len() == earlier@.len() + 1,
        calls@.drop_last() == earlier@,
        calls@.last() == (HookCall {
            hooks: instance@.place->0,
            target: HookTarget::<P, C>::Function(hook),
            args: target_sig,
        }),
{
    law_one_crash_hook_more(
        *old(registry),
        *final(registry),
        HookRepr::Function(hook),
        instance,
        target_sig,
        earlier,
        calls,
    );
}

/// A closure that was added as a crash hook runs on a crash, once, behind all
/// that ran before it was added, whatever the others are.
pub proof fn law_crash_closure_runs<QT, E, P: Copy, C: Copy, A>(
    hooks: &QemuHooks<QT, E>,
    registry: &mut HookRegistry<P, C>,
    hook: C,
    install: A,
    instance: Instance<P>,
    target_sig: i32,
    earlier: Vec<HookCall<P, C, i32>>,
    calls: Vec<HookCall<P, C, i32>>,
) where A: FnOnce(&E, Wrapper)
    requires
        instance@.place is Some,
        call_ensures(
            HookRegistry::<P, C>::crash_hook_wrapper,
            (&*old(registry), &instance, target_sig),
            earlier,
        ),
        call_ensures(
            QemuHooks::<QT, E>::crash_closure::<P, C, A>,
            (hooks, registry, hook, install),
            (),
        ),
        call_ensures(
            HookRegistry::<P, C>::crash_hook_wrapper,
            (&*final(registry), &instance, target_sig),
            calls,
        ),
    ensures
        calls@.len() == earlier@.len() + 1,
        calls@.drop_last() == earlier@,
        calls@.last() == (HookCall {
            hooks: instance@.place->0,
            target: HookTarget::<P, C>::Closure(hook),
            args: target_sig,
        }),
{
    law_one_crash_hook_more(
        *old(registry),
        *final(registry),
        HookRepr::Closure(hook),
        instance,
        target_sig,
        earlier,
        calls,
    );
}

/// A process starts without hooks.
pub proof fn law_starts_without_hooks<P: Copy, C: Copy>(registry: HookRegistry<P, C>)
    requires
        call_ensures(HookRegistry::<P, C>::new, (), registry),
    ensures
        registry@.generic.len() == 0,
        registry@.backdoor.len() == 0,
        registry@.pre_syscall.len() == 0,
        registry@.post_syscall.len() == 0,
        registry@.new_thread.len() == 0,
        registry@.edge.len() == 0,
        registry@.block.len() == 0,
        registry@.read.len() == 0,
        registry@.write.len() == 0,
        registry@.compare.len() == 0,
        registry@.crash.len() == 0,
{
}

/// A closure is looked up among those of its kind.
pub proof fn law_closure_lookup<P: Copy, C: Copy>(
    registry: HookRegistry<P, C>,
    kind: HookKind,
    slot: usize,
    entry: Option<(HookId, C)>,
)
    requires
        call_ensures(HookRegistry::<P, C>::closure, (&registry, kind, slot), entry),
    ensures
        ({
            let closures = match kind {
                HookKind::Generic => registry@.generic,
                HookKind::Backdoor => registry@.backdoor,
                HookKind::PreSyscall => registry@.pre_syscall,
                HookKind::PostSyscall => registry@.post_syscall,
                HookKind::NewThread => registry@.new_thread,
            };
            &&& slot < closures.len() ==> entry == Some(closures[slot as int])
            &&& slot >= closures.len() ==> entry is None
        }),
{
}

/// The id of a group is looked up among the groups of its kind.
pub proof fn law_group_id_lookup<P: Copy, C: Copy>(
    registry: HookRegistry<P, C>,
    kind: TableKind,
    slot: usize,
    id: Option<HookId>,
)
    requires
        call_ensures(HookRegistry::<P, C>::group_id, (&registry, kind, slot), id),
    ensures
        ({
            let groups = match kind {
                TableKind::Edge => registry@.edge,
                TableKind::Block => registry@.block,
                TableKind::Read => registry@.read,
                TableKind::Write => registry@.write,
                TableKind::Compare => registry@.compare,
            };
            &&& slot < groups.len() ==> id == Some(groups[slot as int].id)
            &&& slot >= groups.len() ==> id is None
        }),
{
}

/// A group gives back what it was made of, and has no id yet.
pub proof fn law_state_gives_back<P: Copy, C: Copy, const N: usize>(
    gen: HookRepr<P, C>,
    post_gen: HookRepr<P, C>,
    execs: [HookRepr<P, C>; N],
    state: HookState<P, C, N>,
    id: HookId,
    gen_hook: HookRepr<P, C>,
    post_gen_hook: HookRepr<P, C>,
    index: usize,
    exec_hook: HookRepr<P, C>,
)
    requires
        call_ensures(HookState::<P, C, N>::new, (gen, post_gen, execs), state),
        call_ensures(HookState::<P, C, N>::id, (&state,), id),
        call_ensures(HookState::<P, C, N>::gen, (&state,), gen_hook),
        call_ensures(HookState::<P, C, N>::post_gen, (&state,), post_gen_hook),
        call_ensures(HookState::<P, C, N>::execution, (&state, index), exec_hook),
    ensures
        id == HookId(0),
        gen_hook == gen,
        post_gen_hook == post_gen,
        index < N ==> exec_hook == execs@[index as int],
        index >= N ==> exec_hook is Empty,
{
}

/// A hook is empty where it is neither a function nor a closure nor raw.
pub proof fn law_is_empty<F, C, R: Clone>(hook: Hook<F, C, R>, empty: bool)
    requires
        call_ensures(Hook::<F, C, R>::is_empty, (&hook,), empty),
    ensures
        empty <==> !(hook is Function) && !(hook is Closure) && !(hook is Raw),
{
}

/// The emulator gets the wrapper for a function or a closure, a raw function as
/// it is, and nothing without a hook.
pub proof fn law_get_raw_hook<F, C, R: Clone>(
    hook: Hook<F, C, R>,
    replacement: Wrapper,
    callback: Option<Callback<R>>,
)
    requires
        call_ensures(get_raw_hook::<F, C, R>, (hook, replacement), callback),
    ensures
        entered(hook, callback, replacement),
{
}

/// Functions and closures are kept, and given back to be run.
pub proof fn law_hook_to_repr<P: Copy, C: Copy, R: Clone>(
    hook: Hook<P, C, R>,
    repr: HookRepr<P, C>,
    target: Option<HookTarget<P, C>>,
)
    requires
        call_ensures(hook_to_repr::<P, C, R>, (&hook,), repr),
        call_ensures(HookRepr::<P, C>::target, (&repr,), target),
    ensures
        kept(hook, repr),
        match hook {
            Hook::Function(f) => target == Some(HookTarget::<P, C>::Function(f)),
            Hook::Closure(c) => target == Some(HookTarget::<P, C>::Closure(c)),
            _ => target is None,
        },
{
}

/// A generation wrapper answers with the id of its hook; with the greatest number
/// where the hook gives none; and with 0 where there was no hook to run.
pub proof fn law_gen_hook_id(outcome: Option<Option<u64>>, id: u64)
    requires
        call_ensures(gen_hook_id, (outcome,), id),
    ensures
        outcome matches Some(Some(given)) ==> id == given,
        outcome == Some(None::<u64>) ==> id == u64::MAX,
        outcome is None ==> id == 0,
        SKIP_EXEC_HOOK == u64::MAX,
{
}

/// A process starts without a `QemuHooks`.
pub proof fn law_starts_without_instance<P: Copy>(
    instance: Instance<P>,
    initialized: bool,
    place: Option<P>,
)
    requires
        call_ensures(Instance::<P>::new, (), instance),
        call_ensures(Instance::<P>::is_initialized, (&instance,), initialized),
        call_ensures(Instance::<P>::place, (&instance,), place),
    ensures
        !initialized,
        place is None,
{
}

/// What is asked of the one `QemuHooks` is what holds of it.
pub proof fn law_instance_is_known<P: Copy>(
    instance: Instance<P>,
    initialized: bool,
    place: Option<P>,
)
    requires
        call_ensures(Instance::<P>::is_initialized, (&instance,), initialized),
        call_ensures(Instance::<P>::place, (&instance,), place),
    ensures
        initialized == instance@.is_initialized,
        place == instance@.place,
{
}

/// Hooks find the one `QemuHooks` where it is.
pub proof fn law_get_qemu_hooks<P: Copy>(instance: Instance<P>, hooks: P)
    requires
        call_ensures(get_qemu_hooks::<P>, (&instance,), hooks),
    ensures
        instance@.place == Some(hooks),
{
}

/// A claim is granted exactly where the one `QemuHooks` was not claimed. Either
/// way it is claimed afterwards, and is where it was.
pub proof fn law_claim<P: Copy>(instance: &mut Instance<P>, permit: Option<Permit>)
    requires
        call_ensures(Instance::<P>::claim, (instance,), permit),
    ensures
        permit is Some <==> !old(instance)@.is_initialized,
        final(instance)@.is_initialized,
        final(instance)@.place == old(instance)@.place,
{
}

/// Hooks run where the `QemuHooks` was published, and no claim is granted.
pub proof fn law_publish<P: Copy>(
    instance: &mut Instance<P>,
    ready: Ready<P>,
    hooks: P,
)
    requires
        call_ensures(Instance::<P>::publish, (instance, ready), ()),
        call_ensures(get_qemu_hooks::<P>, (&*final(instance),), hooks),
    ensures
        hooks == ready@,
        final(instance)@.place == Some(ready@),
        final(instance)@.is_initialized,
{
}

/// Setting up flushes code, and hands the helpers what the flush returned and the
/// very `QemuHooks` that is made of the emulator and the helpers. It is published
/// where that is.
pub proof fn law_set_up<QT, E, P: Copy, F, A, I, L>(
    permit: Permit,
    emulator: E,
    helpers: QT,
    flush_jit: A,
    init_hooks_all: I,
    address_of: L,
    made: (Box<QemuHooks<QT, E>>, Ready<P>),
) where
    A: FnOnce(&E) -> F,
    I: FnOnce(&QemuHooks<QT, E>, F),
    L: FnOnce(&QemuHooks<QT, E>) -> P,

    requires
        call_ensures(
            QemuHooks::<QT, E>::set_up::<P, F, A, I, L>,
            (permit, emulator, helpers, flush_jit, init_hooks_all, address_of),
            made,
        ),
    ensures
        *made.0.emulator() == emulator,
        *made.0.helpers() == helpers,
        exists|flushed: F|
            {
                &&& #[trigger] call_ensures(flush_jit, (&emulator,), flushed)
                &&& call_ensures(init_hooks_all, (&*made.0, flushed), ())
            },
        call_ensures(address_of, (&*made.0,), made.1@),
{
    let flushed = choose|flushed: F| #[trigger]
        crate::qemu_hooks::flushed_then_installed(*made.0, flush_jit, flushed, init_hooks_all);
    assert(call_ensures(flush_jit, (&emulator,), flushed));
}

/// Making the one `QemuHooks` flushes code, hands the helpers what the flush
/// returned and the very `QemuHooks` that is returned, and publishes that. There
/// is no second.
pub proof fn law_new<QT, E, P: Copy, F, A, I, L>(
    instance: &mut Instance<P>,
    emulator: E,
    helpers: QT,
    flush_jit: A,
    init_hooks_all: I,
    address_of: L,
    hooks: Box<QemuHooks<QT, E>>,
) where
    A: FnOnce(&E) -> F,
    I: FnOnce(&QemuHooks<QT, E>, F),
    L: FnOnce(&QemuHooks<QT, E>) -> P,

    requires
        call_ensures(
            QemuHooks::<QT, E>::new::<P, F, A, I, L>,
            (instance, emulator, helpers, flush_jit, init_hooks_all, address_of),
            hooks,
        ),
    ensures
        *hooks.emulator() == emulator,
        *hooks.helpers() == helpers,
        exists|flushed: F|
            {
                &&& #[trigger] call_ensures(flush_jit, (&emulator,), flushed)
                &&& call_ensures(init_hooks_all, (&*hooks, flushed), ())
            },
        final(instance)@.is_initialized,
        final(instance)@.place is Some,
        call_ensures(address_of, (&*hooks,), final(instance)@.place->0),
{
    let flushed = choose|flushed: F| #[trigger]
        crate::qemu_hooks::flushed_then_installed(*hooks, flush_jit, flushed, init_hooks_all);
    assert(call_ensures(flush_jit, (&emulator,), flushed));
}

} // verus!
