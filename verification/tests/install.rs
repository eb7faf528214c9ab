use std::cell::{Cell, RefCell};

use qemu_hooks::{
    get_raw_hook, hook_to_repr, AddAccessHooks, AddBlockHooks, AddCompareHooks, AddEdgeHooks,
    AddHook, Callback, Hook, HookData, HookId, HookKind, HookRegistry, HookRepr, QemuHooks,
    Instance, SetHook, TableKind, Wrapper,
};

type Registry = HookRegistry<u32, u64>;
type UserHook = Hook<u32, u64, &'static str>;

/// An emulator that hands out ids and counts what it is asked.
#[derive(Debug)]
struct Fake {
    next: Cell<usize>,
    flushes: Cell<usize>,
    crash: RefCell<Vec<Wrapper>>,
}

impl Fake {
    fn new() -> Fake {
        Fake { next: Cell::new(40), flushes: Cell::new(0), crash: RefCell::new(Vec::new()) }
    }

    fn id(&self) -> HookId {
        let id = self.next.get();
        self.next.set(id + 1);
        HookId(id)
    }

    fn asked(&self) -> usize {
        self.next.get() - 40
    }
}

const INSTANCE: u32 = 0xbeef;

fn start() -> (Registry, Box<QemuHooks<Vec<u8>, Fake>>) {
    let hooks = QemuHooks::new(
        &mut Instance::new(),
        Fake::new(),
        vec![1, 2],
        |emulator: &Fake| emulator.flushes.set(emulator.flushes.get() + 1),
        |_, ()| {},
        |_| INSTANCE,
    );
    (HookRegistry::new(), hooks)
}

#[test]
fn is_empty_tells_empty_hooks_apart() {
    assert!(UserHook::Empty.is_empty());
    assert!(!UserHook::Function(0).is_empty());
    assert!(!UserHook::Closure(0).is_empty());
    assert!(!UserHook::Raw("raw").is_empty());
}

#[test]
fn raw_hooks_are_the_callback_and_others_get_the_wrapper() {
    let wrapper = Wrapper::Gen(TableKind::Edge);
    assert_eq!(get_raw_hook(UserHook::Function(1), wrapper), Some(Callback::Wrapper(wrapper)));
    assert_eq!(get_raw_hook(UserHook::Closure(1), wrapper), Some(Callback::Wrapper(wrapper)));
    assert_eq!(get_raw_hook(UserHook::Raw("raw"), wrapper), Some(Callback::Raw("raw")));
    assert_eq!(get_raw_hook(UserHook::Empty, wrapper), None);
}

#[test]
fn raw_hooks_are_not_kept() {
    assert_eq!(hook_to_repr(&UserHook::Function(1)), HookRepr::Function(1));
    assert_eq!(hook_to_repr(&UserHook::Closure(2)), HookRepr::Closure(2));
    assert_eq!(hook_to_repr(&UserHook::Raw("raw")), HookRepr::Empty);
    assert_eq!(hook_to_repr(&UserHook::Empty), HookRepr::Empty);
}

#[test]
fn new_flushes_then_lets_the_helpers_install_then_publishes() {
    let mut instance = Instance::new();
    assert!(!instance.is_initialized());
    assert_eq!(instance.place(), None);
    let log = RefCell::new(Vec::new());
    let registry = RefCell::new(Registry::new());
    let hooks = QemuHooks::new(
        &mut instance,
        Fake::new(),
        vec![1, 2],
        |emulator: &Fake| {
            log.borrow_mut().push("flush");
            emulator.flushes.set(emulator.flushes.get() + 1);
            "flushed"
        },
        |hooks: &QemuHooks<Vec<u8>, Fake>, flushed| {
            log.borrow_mut().push("helpers");
            assert_eq!(flushed, "flushed");
            assert_eq!(hooks.helpers(), &vec![1, 2]);
            assert_eq!(hooks.emulator().flushes.get(), 1);
            hooks.backdoor_closure(
                &mut registry.borrow_mut(),
                9,
                |emulator: &Fake, _: Request| emulator.id(),
            );
        },
        |hooks| {
            log.borrow_mut().push("address");
            hooks.helpers().len() as u32
        },
    );
    assert_eq!(log.into_inner(), vec!["flush", "helpers", "address"]);
    assert!(instance.is_initialized());
    assert_eq!(instance.place(), Some(2));
    assert_eq!(registry.borrow().closure(HookKind::Backdoor, 0), Some((HookId(40), 9)));
    assert_eq!(hooks.emulator().flushes.get(), 1);
}

#[test]
fn helpers_are_handed_the_very_object_that_is_returned() {
    let mut instance: Instance<usize> = Instance::new();
    let seen = Cell::new(0);
    let hooks = QemuHooks::new(
        &mut instance,
        7u8,
        "helpers",
        |_: &u8| {},
        |hooks: &QemuHooks<&'static str, u8>, ()| seen.set(std::ptr::from_ref(hooks) as usize),
        |hooks| std::ptr::from_ref(hooks) as usize,
    );
    let address = std::ptr::from_ref(&*hooks) as usize;
    assert_eq!(seen.get(), address);
    assert_eq!(instance.place(), Some(address));
}

#[test]
fn a_second_claim_is_refused_and_changes_nothing() {
    let mut instance: Instance<u32> = Instance::new();
    let hooks = QemuHooks::new(
        &mut instance,
        (),
        (),
        |_: &()| {},
        |_, ()| {},
        |_| INSTANCE,
    );
    assert!(instance.claim().is_none());
    assert!(instance.is_initialized());
    assert_eq!(instance.place(), Some(INSTANCE));
    drop(hooks);
    assert!(instance.claim().is_none());
    assert_eq!(instance.place(), Some(INSTANCE));
}

#[test]
fn the_claim_stands_while_setting_up_and_if_that_stops() {
    let instance: RefCell<Instance<u32>> = RefCell::new(Instance::new());
    let permit = instance.borrow_mut().claim().unwrap();
    assert!(instance.borrow_mut().claim().is_none());
    let look = || {
        assert!(instance.borrow().is_initialized());
        assert_eq!(instance.borrow().place(), None);
        assert!(instance.borrow_mut().claim().is_none());
    };
    let (_, ready) = QemuHooks::set_up(
        permit,
        (),
        (),
        |_: &()| look(),
        |_, ()| look(),
        |_| INSTANCE,
    );
    look();
    instance.borrow_mut().publish(ready);
    assert_eq!(instance.borrow().place(), Some(INSTANCE));

    let mut stopped: Instance<u32> = Instance::new();
    drop(stopped.claim());
    assert!(stopped.claim().is_none());
    assert!(stopped.is_initialized());
    assert_eq!(stopped.place(), None);
}

#[test]
fn helpers_can_be_changed() {
    let (_, mut hooks) = start();
    hooks.helpers_mut().push(3);
    assert_eq!(hooks.helpers(), &vec![1, 2, 3]);
    assert_eq!(hooks.emulator().flushes.get(), 1);
}

#[test]
fn debug_shows_helpers_and_emulator() {
    let hooks = QemuHooks::new(
        &mut Instance::new(),
        7u8,
        "helpers",
        |_: &u8| {},
        |_, ()| {},
        |_| INSTANCE,
    );
    assert_eq!(format!("{:?}", hooks), "QemuHooks { helpers: \"helpers\", emulator: 7 }");
}

#[test]
fn instruction_function_is_handed_back_by_the_emulator() {
    let (mut registry, hooks) = start();
    let mut seen = None;
    let id = hooks.instruction(
        &mut registry,
        0x1000,
        UserHook::Function(5),
        true,
        |emulator: &Fake, request: SetHook<u32, &'static str>| {
            seen = Some(request);
            emulator.id()
        },
    );
    assert_eq!(id, HookId(40));
    assert_eq!(
        seen,
        Some(SetHook {
            data: HookData::Function(5),
            addr: 0x1000,
            callback: Callback::Wrapper(Wrapper::Func(HookKind::Generic)),
            invalidate_block: true,
        })
    );
    assert_eq!(registry.closure(HookKind::Generic, 0), None);
}

#[test]
fn instruction_closure_is_kept_with_its_id() {
    let (mut registry, hooks) = start();
    for round in 0..3usize {
        let mut seen = None;
        let id = hooks.instruction(
            &mut registry,
            0x2000,
            UserHook::Closure(70 + round as u64),
            false,
            |emulator: &Fake, request: SetHook<u32, &'static str>| {
                seen = Some(request);
                emulator.id()
            },
        );
        assert_eq!(id, HookId(40 + round));
        assert_eq!(
            seen,
            Some(SetHook {
                data: HookData::Slot(round),
                addr: 0x2000,
                callback: Callback::Wrapper(Wrapper::Closure(HookKind::Generic)),
                invalidate_block: false,
            })
        );
    }
    assert_eq!(registry.closure(HookKind::Generic, 0), Some((HookId(40), 70)));
    assert_eq!(registry.closure(HookKind::Generic, 2), Some((HookId(42), 72)));
    assert_eq!(registry.closure(HookKind::Generic, 3), None);
    assert_eq!(registry.closure(HookKind::Backdoor, 0), None);
}

#[test]
fn instruction_raw_and_empty_keep_nothing() {
    let (mut registry, hooks) = start();
    let mut seen = None;
    let id = hooks.instruction(
        &mut registry,
        1,
        UserHook::Raw("raw"),
        false,
        |emulator: &Fake, request: SetHook<u32, &'static str>| {
            seen = Some(request);
            emulator.id()
        },
    );
    assert_eq!(id, HookId(40));
    assert_eq!(
        seen,
        Some(SetHook {
            data: HookData::Null,
            addr: 1,
            callback: Callback::Raw("raw"),
            invalidate_block: false,
        })
    );
    let id = hooks.instruction(
        &mut registry,
        1,
        UserHook::Empty,
        false,
        |emulator: &Fake, _: SetHook<u32, &'static str>| emulator.id(),
    );
    assert_eq!(id, HookId(0));
    assert_eq!(hooks.emulator().asked(), 1);
    assert_eq!(registry.closure(HookKind::Generic, 0), None);
}

type Request = AddHook<u32, &'static str>;

fn check_kind(
    kind: HookKind,
    install: fn(
        &QemuHooks<Vec<u8>, Fake>,
        &mut Registry,
        UserHook,
        &RefCell<Vec<Request>>,
    ) -> HookId,
) {
    let (mut registry, hooks) = start();
    let seen = RefCell::new(Vec::new());
    assert_eq!(install(&hooks, &mut registry, UserHook::Empty, &seen), HookId(0));
    assert_eq!(install(&hooks, &mut registry, UserHook::Function(5), &seen), HookId(40));
    assert_eq!(install(&hooks, &mut registry, UserHook::Closure(6), &seen), HookId(41));
    assert_eq!(install(&hooks, &mut registry, UserHook::Raw("raw"), &seen), HookId(42));
    assert_eq!(install(&hooks, &mut registry, UserHook::Closure(7), &seen), HookId(43));
    assert_eq!(
        seen.into_inner(),
        vec![
            AddHook {
                data: HookData::Function(5),
                callback: Callback::Wrapper(Wrapper::Func(kind)),
            },
            AddHook {
                data: HookData::Slot(0),
                callback: Callback::Wrapper(Wrapper::Closure(kind)),
            },
            AddHook { data: HookData::Null, callback: Callback::Raw("raw") },
            AddHook {
                data: HookData::Slot(1),
                callback: Callback::Wrapper(Wrapper::Closure(kind)),
            },
        ]
    );
    assert_eq!(registry.closure(kind, 0), Some((HookId(41), 6)));
    assert_eq!(registry.closure(kind, 1), Some((HookId(43), 7)));
    assert_eq!(registry.closure(kind, 2), None);
}

#[test]
fn backdoor_hooks() {
    check_kind(HookKind::Backdoor, |hooks, registry, hook, seen| {
        hooks.backdoor(registry, hook, |emulator: &Fake, request: Request| {
            seen.borrow_mut().push(request);
            emulator.id()
        })
    });
}

#[test]
fn syscall_hooks() {
    check_kind(HookKind::PreSyscall, |hooks, registry, hook, seen| {
        hooks.syscalls(registry, hook, |emulator: &Fake, request: Request| {
            seen.borrow_mut().push(request);
            emulator.id()
        })
    });
}

#[test]
fn after_syscall_hooks() {
    check_kind(HookKind::PostSyscall, |hooks, registry, hook, seen| {
        hooks.after_syscalls(registry, hook, |emulator: &Fake, request: Request| {
            seen.borrow_mut().push(request);
            emulator.id()
        })
    });
}

#[test]
fn thread_creation_hooks() {
    check_kind(HookKind::NewThread, |hooks, registry, hook, seen| {
        hooks.thread_creation(registry, hook, |emulator: &Fake, request: Request| {
            seen.borrow_mut().push(request);
            emulator.id()
        })
    });
}

#[test]
fn functions_and_closures_by_their_own_names() {
    let (mut registry, hooks) = start();
    let seen = RefCell::new(Vec::new());
    let ask = |emulator: &Fake, request: Request| {
        seen.borrow_mut().push((request.data, request.callback));
        emulator.id()
    };
    hooks.backdoor_function(1, &ask);
    hooks.syscalls_function(2, &ask);
    hooks.after_syscalls_function(3, &ask);
    hooks.thread_creation_function(4, &ask);
    assert_eq!(hooks.backdoor_closure(&mut registry, 5, &ask), HookId(44));
    assert_eq!(hooks.syscalls_closure(&mut registry, 6, &ask), HookId(45));
    assert_eq!(hooks.after_syscalls_closure(&mut registry, 7, &ask), HookId(46));
    assert_eq!(hooks.thread_creation_closure(&mut registry, 8, &ask), HookId(47));
    let kinds =
        [HookKind::Backdoor, HookKind::PreSyscall, HookKind::PostSyscall, HookKind::NewThread];
    let seen = seen.into_inner();
    assert_eq!(seen.len(), 8);
    for (i, kind) in kinds.into_iter().enumerate() {
        assert_eq!(
            seen[i],
            (HookData::Function(i as u32 + 1), Callback::Wrapper(Wrapper::Func(kind)))
        );
        assert_eq!(
            seen[i + 4],
            (HookData::Slot(0), Callback::Wrapper(Wrapper::Closure(kind)))
        );
        assert_eq!(registry.closure(kind, 0), Some((HookId(44 + i), 5 + i as u64)));
    }
}

#[test]
fn edges_ask_for_both_callbacks() {
    let (mut registry, hooks) = start();
    let mut seen = None;
    let id = hooks.edges(
        &mut registry,
        UserHook::Function(1),
        UserHook::Raw("exec"),
        |emulator: &Fake, request: AddEdgeHooks<u32, &'static str, &'static str>| {
            seen = Some(request);
            emulator.id()
        },
    );
    assert_eq!(id, HookId(40));
    assert_eq!(registry.group_id(TableKind::Edge, 0), Some(HookId(40)));
    assert_eq!(registry.group_id(TableKind::Edge, 1), None);
    assert_eq!(registry.group_id(TableKind::Block, 0), None);
    assert_eq!(
        seen,
        Some(AddEdgeHooks {
            data: HookData::Slot(0),
            gen: Some(Callback::Wrapper(Wrapper::Gen(TableKind::Edge))),
            execution: Some(Callback::Raw("exec")),
        })
    );
}

#[test]
fn blocks_without_hooks_still_ask_the_emulator() {
    let (mut registry, hooks) = start();
    let mut seen = None;
    let id = hooks.blocks(
        &mut registry,
        UserHook::Empty,
        UserHook::Empty,
        UserHook::Empty,
        |emulator: &Fake,
         request: AddBlockHooks<u32, &'static str, &'static str, &'static str>| {
            seen = Some(request);
            emulator.id()
        },
    );
    assert_eq!(id, HookId(40));
    assert_eq!(registry.group_id(TableKind::Block, 0), Some(HookId(40)));
    assert_eq!(
        seen,
        Some(AddBlockHooks {
            data: HookData::Slot(0),
            gen: None,
            post_gen: None,
            execution: None,
        })
    );
}

type Access = AddAccessHooks<u32, &'static str, &'static str, &'static str>;

fn access(kind: TableKind, slot: usize) -> Access {
    AddAccessHooks {
        data: HookData::Slot(slot),
        gen: Some(Callback::Raw("gen")),
        exec1: Some(Callback::Wrapper(Wrapper::Exec(kind, 0))),
        exec2: None,
        exec4: Some(Callback::Wrapper(Wrapper::Exec(kind, 2))),
        exec8: Some(Callback::Raw("eight")),
        execn: Some(Callback::Wrapper(Wrapper::Exec(kind, 4))),
    }
}

#[test]
fn reads_and_writes_ask_by_size() {
    let (mut registry, hooks) = start();
    for slot in 0..2 {
        let mut seen = None;
        let id = hooks.reads(
            &mut registry,
            UserHook::Raw("gen"),
            UserHook::Function(1),
            UserHook::Empty,
            UserHook::Closure(4),
            UserHook::Raw("eight"),
            UserHook::Function(9),
            |emulator: &Fake, request: Access| {
                seen = Some(request);
                emulator.id()
            },
        );
        assert_eq!(seen, Some(access(TableKind::Read, slot)));
        assert_eq!(registry.group_id(TableKind::Read, slot), Some(id));
        assert_eq!(registry.group_id(TableKind::Write, slot), None);
    }
    let mut seen = None;
    let id = hooks.writes(
        &mut registry,
        UserHook::Raw("gen"),
        UserHook::Function(1),
        UserHook::Empty,
        UserHook::Closure(4),
        UserHook::Raw("eight"),
        UserHook::Function(9),
        |emulator: &Fake, request: Access| {
            seen = Some(request);
            emulator.id()
        },
    );
    assert_eq!(id, HookId(42));
    assert_eq!(seen, Some(access(TableKind::Write, 0)));
    assert_eq!(registry.group_id(TableKind::Write, 0), Some(id));
    assert_eq!(registry.group_id(TableKind::Read, 2), None);
}

#[test]
fn cmps_ask_by_size() {
    let (mut registry, hooks) = start();
    let mut seen = None;
    let id = hooks.cmps(
        &mut registry,
        UserHook::Closure(1),
        Hook::<u32, u64, u8>::Function(2),
        Hook::<u32, u64, u16>::Raw(16),
        Hook::<u32, u64, u32>::Empty,
        Hook::<u32, u64, u64>::Closure(8),
        |emulator: &Fake, request: AddCompareHooks<u32, &'static str, u8, u16, u32, u64>| {
            seen = Some(request);
            emulator.id()
        },
    );
    assert_eq!(id, HookId(40));
    assert_eq!(registry.group_id(TableKind::Compare, 0), Some(HookId(40)));
    assert_eq!(
        seen,
        Some(AddCompareHooks {
            data: HookData::Slot(0),
            gen: Some(Callback::Wrapper(Wrapper::Gen(TableKind::Compare))),
            exec1: Some(Callback::Wrapper(Wrapper::Exec(TableKind::Compare, 0))),
            exec2: Some(Callback::Raw(16)),
            exec4: None,
            exec8: Some(Callback::Wrapper(Wrapper::Exec(TableKind::Compare, 3))),
        })
    );
}

#[test]
fn each_crash_hook_sets_the_wrapper_anew() {
    let (mut registry, hooks) = start();
    hooks.crash_function(&mut registry, 1, |emulator: &Fake, wrapper| {
        emulator.crash.borrow_mut().push(wrapper)
    });
    hooks.crash_closure(&mut registry, 2, |emulator: &Fake, wrapper| {
        emulator.crash.borrow_mut().push(wrapper)
    });
    assert_eq!(*hooks.emulator().crash.borrow(), vec![Wrapper::Crash, Wrapper::Crash]);
}
