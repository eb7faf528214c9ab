use std::cell::RefCell;

use qemu_hooks::{
    gen_hook_id, get_qemu_hooks, AddAccessHooks, AddBlockHooks, AddCompareHooks, AddEdgeHooks,
    AddHook, Callback, Hook, HookCall, HookData, HookId, HookKind, HookRegistry, HookRepr,
    HookState, HookTarget, Instance, QemuHooks, TableKind, Wrapper, SKIP_EXEC_HOOK,
};

type Registry = HookRegistry<u32, u64>;
type UserHook = Hook<u32, u64, i8>;

const INSTANCE: u32 = 0xbeef;

/// A process whose one `QemuHooks` is at `INSTANCE`.
fn ready() -> (Instance<u32>, Box<QemuHooks<(), ()>>) {
    let mut instance = Instance::new();
    let hooks = QemuHooks::new(
        &mut instance,
        (),
        (),
        |_: &()| {},
        |_, ()| {},
        |_| INSTANCE,
    );
    (instance, hooks)
}

fn start() -> (Registry, Box<QemuHooks<(), ()>>) {
    (HookRegistry::new(), ready().1)
}

fn target(registry: &Registry, wrapper: Wrapper, slot: usize) -> Option<HookTarget<u32, u64>> {
    registry.hook_wrapper(&ready().0, wrapper, HookData::Slot(slot), ()).map(|call| call.target)
}

#[test]
fn hooks_run_on_the_published_instance() {
    let (instance, _) = ready();
    assert_eq!(instance.place(), Some(INSTANCE));
    assert_eq!(get_qemu_hooks(&instance), INSTANCE);
    assert_eq!(
        Registry::new().hook_wrapper(
            &instance,
            Wrapper::Func(HookKind::Generic),
            HookData::Function(17),
            (1u8, "args"),
        ),
        Some(HookCall {
            hooks: INSTANCE,
            target: HookTarget::Function(17),
            args: (1u8, "args"),
        })
    );
}

#[test]
fn hooks_installed_before_publishing_run_afterwards() {
    let mut instance = Instance::new();
    let registry = RefCell::new(Registry::new());
    QemuHooks::new(
        &mut instance,
        (),
        (),
        |_: &()| {},
        |hooks: &QemuHooks<(), ()>, ()| {
            hooks.syscalls_closure(
                &mut registry.borrow_mut(),
                9,
                |_: &(), _: AddHook<u32, i8>| HookId(1),
            );
        },
        |_| INSTANCE,
    );
    assert_eq!(
        registry.into_inner().hook_wrapper(
            &instance,
            Wrapper::Closure(HookKind::PreSyscall),
            HookData::Slot(0),
            (60, 1u64),
        ),
        Some(HookCall {
            hooks: INSTANCE,
            target: HookTarget::Closure(9),
            args: (60, 1u64),
        })
    );
}

#[test]
fn wrappers_find_nothing_where_nothing_is() {
    let (registry, _) = start();
    for kind in [
        TableKind::Edge,
        TableKind::Block,
        TableKind::Read,
        TableKind::Write,
        TableKind::Compare,
    ] {
        assert_eq!(target(&registry, Wrapper::Gen(kind), 0), None);
        assert_eq!(target(&registry, Wrapper::PostGen(kind), 0), None);
        assert_eq!(target(&registry, Wrapper::Exec(kind, 0), 0), None);
    }
    assert_eq!(target(&registry, Wrapper::Closure(HookKind::Generic), 0), None);
    assert_eq!(target(&registry, Wrapper::Crash, 0), None);
    assert_eq!(
        registry.hook_wrapper(
            &ready().0,
            Wrapper::Func(HookKind::Generic),
            HookData::Null,
            (),
        ),
        None
    );
}

#[test]
fn closures_stay_found_when_more_are_installed() {
    let (mut registry, hooks) = start();
    for i in 0..200u64 {
        hooks.backdoor_closure(&mut registry, 1000 + i, |_: &(), _: AddHook<u32, i8>| {
            HookId(i as usize + 1)
        });
        hooks.thread_creation_closure(&mut registry, 5000 + i, |_: &(), _: AddHook<u32, i8>| {
            HookId(i as usize + 1)
        });
        for j in 0..=i {
            assert_eq!(
                target(&registry, Wrapper::Closure(HookKind::Backdoor), j as usize),
                Some(HookTarget::Closure(1000 + j))
            );
            assert_eq!(
                target(&registry, Wrapper::Closure(HookKind::NewThread), j as usize),
                Some(HookTarget::Closure(5000 + j))
            );
        }
    }
}

#[test]
fn edges_run_their_hooks() {
    let (mut registry, hooks) = start();
    let add = |_: &(), _: AddEdgeHooks<u32, i8, i8>| HookId(3);
    hooks.edges(&mut registry, UserHook::Function(1), UserHook::Closure(2), add);
    hooks.edges(&mut registry, UserHook::Raw(3), UserHook::Empty, add);
    hooks.edges(&mut registry, UserHook::Closure(5), UserHook::Function(6), add);
    let gen = Wrapper::Gen(TableKind::Edge);
    let exec = Wrapper::Exec(TableKind::Edge, 0);
    assert_eq!(target(&registry, gen, 0), Some(HookTarget::Function(1)));
    assert_eq!(target(&registry, exec, 0), Some(HookTarget::Closure(2)));
    assert_eq!(target(&registry, gen, 1), None);
    assert_eq!(target(&registry, exec, 1), None);
    assert_eq!(target(&registry, gen, 2), Some(HookTarget::Closure(5)));
    assert_eq!(target(&registry, exec, 2), Some(HookTarget::Function(6)));
    assert_eq!(target(&registry, gen, 3), None);
    assert_eq!(target(&registry, Wrapper::Exec(TableKind::Edge, 1), 0), None);
    assert_eq!(target(&registry, Wrapper::PostGen(TableKind::Edge), 0), None);
}

#[test]
fn blocks_run_their_hooks() {
    let (mut registry, hooks) = start();
    hooks.blocks(
        &mut registry,
        UserHook::Function(1),
        UserHook::Closure(2),
        UserHook::Function(3),
        |_: &(), _: AddBlockHooks<u32, i8, i8, i8>| HookId(3),
    );
    assert_eq!(
        target(&registry, Wrapper::Gen(TableKind::Block), 0),
        Some(HookTarget::Function(1))
    );
    assert_eq!(
        target(&registry, Wrapper::PostGen(TableKind::Block), 0),
        Some(HookTarget::Closure(2))
    );
    assert_eq!(
        target(&registry, Wrapper::Exec(TableKind::Block, 0), 0),
        Some(HookTarget::Function(3))
    );
}

#[test]
fn accesses_and_comparisons_run_the_hook_for_their_size() {
    let (mut registry, hooks) = start();
    let add = |_: &(), _: AddAccessHooks<u32, i8, i8, i8>| HookId(3);
    hooks.reads(
        &mut registry,
        UserHook::Function(10),
        UserHook::Function(11),
        UserHook::Function(12),
        UserHook::Function(14),
        UserHook::Function(18),
        UserHook::Function(19),
        add,
    );
    hooks.writes(
        &mut registry,
        UserHook::Closure(20),
        UserHook::Closure(21),
        UserHook::Closure(22),
        UserHook::Closure(24),
        UserHook::Closure(28),
        UserHook::Closure(29),
        add,
    );
    hooks.cmps(
        &mut registry,
        UserHook::Function(30),
        UserHook::Function(31),
        UserHook::Function(32),
        UserHook::Function(34),
        UserHook::Function(38),
        |_: &(), _: AddCompareHooks<u32, i8, i8, i8, i8, i8>| HookId(3),
    );
    let sizes = [1, 2, 4, 8, 9];
    for (i, size) in sizes.into_iter().enumerate() {
        assert_eq!(
            target(&registry, Wrapper::Exec(TableKind::Read, i), 0),
            Some(HookTarget::Function(10 + size))
        );
        assert_eq!(
            target(&registry, Wrapper::Exec(TableKind::Write, i), 0),
            Some(HookTarget::Closure(20 + size as u64))
        );
        assert_eq!(
            target(&registry, Wrapper::Exec(TableKind::Compare, i), 0),
            if i < 4 { Some(HookTarget::Function(30 + size)) } else { None }
        );
    }
    assert_eq!(
        target(&registry, Wrapper::Gen(TableKind::Read), 0),
        Some(HookTarget::Function(10))
    );
    assert_eq!(
        target(&registry, Wrapper::Gen(TableKind::Write), 0),
        Some(HookTarget::Closure(20))
    );
    assert_eq!(
        target(&registry, Wrapper::Gen(TableKind::Compare), 0),
        Some(HookTarget::Function(30))
    );
}

#[test]
fn writes_are_as_reads() {
    let (mut registry, hooks) = start();
    type Access = AddAccessHooks<u32, i8, i8, i8>;
    let mut reads = None;
    hooks.reads(
        &mut registry,
        UserHook::Closure(1),
        UserHook::Function(2),
        UserHook::Raw(3),
        UserHook::Empty,
        UserHook::Closure(5),
        UserHook::Function(6),
        |_: &(), request: Access| {
            reads = Some(request);
            HookId(1)
        },
    );
    let mut writes = None;
    hooks.writes(
        &mut registry,
        UserHook::Closure(1),
        UserHook::Function(2),
        UserHook::Raw(3),
        UserHook::Empty,
        UserHook::Closure(5),
        UserHook::Function(6),
        |_: &(), request: Access| {
            writes = Some(request);
            HookId(2)
        },
    );
    let (reads, writes) = (reads.unwrap(), writes.unwrap());
    let instance = ready().0;
    let run = |callback: Option<Callback<i8>>, data| match callback {
        Some(Callback::Wrapper(wrapper)) => Ok(registry.hook_wrapper(&instance, wrapper, data, 8u8)),
        raw => Err(raw),
    };
    assert_eq!(run(reads.gen, reads.data), run(writes.gen, writes.data));
    assert_eq!(run(reads.exec1, reads.data), run(writes.exec1, writes.data));
    assert_eq!(run(reads.exec2, reads.data), run(writes.exec2, writes.data));
    assert_eq!(run(reads.exec4, reads.data), run(writes.exec4, writes.data));
    assert_eq!(run(reads.exec8, reads.data), run(writes.exec8, writes.data));
    assert_eq!(run(reads.execn, reads.data), run(writes.execn, writes.data));
}

#[test]
fn crash_hooks_run_in_order() {
    let (mut registry, hooks) = start();
    assert_eq!(registry.crash_hook_wrapper(&ready().0, 11), vec![]);
    hooks.crash_closure(&mut registry, 3, |_: &(), _| {});
    hooks.crash_function(&mut registry, 1, |_: &(), _| {});
    hooks.crash_closure(&mut registry, 2, |_: &(), _| {});
    let call = |target| HookCall { hooks: INSTANCE, target, args: 11 };
    assert_eq!(
        registry.crash_hook_wrapper(&ready().0, 11),
        vec![
            call(HookTarget::Closure(3)),
            call(HookTarget::Function(1)),
            call(HookTarget::Closure(2)),
        ]
    );
}

#[test]
fn generation_hooks_answer_with_an_id_or_skip() {
    assert_eq!(gen_hook_id(Some(Some(12))), 12);
    assert_eq!(gen_hook_id(Some(Some(0))), 0);
    assert_eq!(gen_hook_id(Some(None)), SKIP_EXEC_HOOK);
    assert_eq!(gen_hook_id(None), 0);
    assert_eq!(SKIP_EXEC_HOOK, u64::MAX);
}

#[test]
fn a_group_starts_without_an_id() {
    let state: HookState<u32, u64, 2> = HookState::new(
        HookRepr::Function(1),
        HookRepr::Closure(2),
        [HookRepr::Empty, HookRepr::Function(4)],
    );
    assert_eq!(state.id(), HookId(0));
    assert_eq!(state.gen(), HookRepr::Function(1));
    assert_eq!(state.post_gen(), HookRepr::Closure(2));
    assert_eq!(state.execution(0), HookRepr::Empty);
    assert_eq!(state.execution(1), HookRepr::Function(4));
    assert_eq!(state.execution(2), HookRepr::Empty);
}

#[test]
fn repr_gives_back_its_hook() {
    assert_eq!(HookRepr::<u32, u64>::Function(1).target(), Some(HookTarget::Function(1)));
    assert_eq!(HookRepr::<u32, u64>::Closure(2).target(), Some(HookTarget::Closure(2)));
    assert_eq!(HookRepr::<u32, u64>::Empty.target(), None);
}
