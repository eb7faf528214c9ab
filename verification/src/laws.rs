//! What holds of the hooks as a whole.

use vstd::prelude::*;

use crate::emulator::{
    Callback, GuestAddr, HookData, HookId, HookKind, TableKind, Wrapper, SKIP_EXEC_HOOK,
};
use crate::hook::{Hook, HookRepr, HookTarget};
use crate::instance::InstanceModel;
use crate::model::{GroupModel, RegistryModel};
use crate::registry::{HookCall, HookRegistry};

verus! {

/// When the emulator calls `callback` with `data`, exactly `hook` runs: a raw
/// hook is the callback, a wrapper finds the function or the closure, and there
/// is a callback unless there is no hook.
pub open spec fn runs<P, C, R: Clone>(
    model: RegistryModel<P, C>,
    callback: Option<Callback<R>>,
    data: HookData<P>,
    hook: Hook<P, C, R>,
) -> bool {
    match callback {
        Some(Callback::Wrapper(wrapper)) => {
            &&& hook.spec_target() is Some
            &&& model.target(wrapper, data) == hook.spec_target()
        },
        Some(Callback::Raw(r)) => hook == Hook::<P, C, R>::Raw(r),
        None => hook is Empty,
    }
}

/// A wrapper is installed for a hook exactly where the hook is kept for that
/// wrapper to find. Raw hooks are the emulator's alone.
pub proof fn law_wrapped_iff_kept<P, C, R: Clone>(hook: Hook<P, C, R>, wrapper: Wrapper)
    ensures
        hook.spec_callback(wrapper) == Some(Callback::<R>::Wrapper(wrapper)) <==> !(
        hook.spec_repr() is Empty),
        hook.spec_repr().spec_target() == hook.spec_target(),
        hook is Raw ==> hook.spec_callback(wrapper) == Some(Callback::Raw(hook->Raw_0))
            && hook.spec_repr() is Empty,
        hook is Empty ==> hook.spec_callback(wrapper) is None && hook.spec_repr() is Empty,
{
}

/// Where nothing is done, nothing is undone.
pub proof fn law_follows_reflexive<P, C>(model: RegistryModel<P, C>)
    ensures
        model.follows(model),
{
}

/// Nothing that was done is undone, however often more is done.
pub proof fn law_follows_transitive<P, C>(
    first: RegistryModel<P, C>,
    second: RegistryModel<P, C>,
    third: RegistryModel<P, C>,
)
    requires
        second.follows(first),
        third.follows(second),
    ensures
        third.follows(first),
{
    assert forall|kind: HookKind| #[trigger]
        first.closures(kind).is_prefix_of(third.closures(kind)) by {
        assert(first.closures(kind).is_prefix_of(second.closures(kind)));
        assert(second.closures(kind).is_prefix_of(third.closures(kind)));
    }
    assert forall|kind: TableKind| #[trigger]
        first.groups(kind).is_prefix_of(third.groups(kind)) by {
        assert(first.groups(kind).is_prefix_of(second.groups(kind)));
        assert(second.groups(kind).is_prefix_of(third.groups(kind)));
    }
}

/// A wrapper that finds a hook goes on finding that hook, whatever else is
/// installed.
pub proof fn law_targets_stay<P, C>(
    earlier: RegistryModel<P, C>,
    later: RegistryModel<P, C>,
    wrapper: Wrapper,
    data: HookData<P>,
)
    requires
        later.follows(earlier),
        earlier.target(wrapper, data) is Some,
    ensures
        later.target(wrapper, data) == earlier.target(wrapper, data),
{
    match wrapper {
        Wrapper::Closure(kind) => {
            assert(earlier.closures(kind).is_prefix_of(later.closures(kind)));
        },
        Wrapper::Gen(kind) => {
            assert(earlier.groups(kind).is_prefix_of(later.groups(kind)));
        },
        Wrapper::PostGen(kind) => {
            assert(earlier.groups(kind).is_prefix_of(later.groups(kind)));
        },
        Wrapper::Exec(kind, _) => {
            assert(earlier.groups(kind).is_prefix_of(later.groups(kind)));
        },
        _ => {},
    }
}

/// Once the one `QemuHooks` has been claimed, every claim is refused and changes
/// nothing, and hooks go on running on the one that was published.
pub proof fn law_one_instance<P>(earlier: InstanceModel<P>, later: InstanceModel<P>)
    requires
        later.follows(earlier),
        earlier.is_initialized,
    ensures
        later.is_initialized,
        later.claimed() == later,
        earlier.place is Some ==> later.place == earlier.place,
{
}

/// Nothing that is known of the one `QemuHooks` is taken back, however often
/// more becomes known.
pub proof fn law_instance_follows_transitive<P>(
    first: InstanceModel<P>,
    second: InstanceModel<P>,
    third: InstanceModel<P>,
)
    requires
        second.follows(first),
        third.follows(second),
    ensures
        third.follows(first),
{
}

/// From the claim on until it is published, the one `QemuHooks` is claimed and
/// not ready. So it is while code is flushed and the helpers install their
/// hooks; and so it stays where one of these does not come to its end: no hook
/// can run then, and every later claim is refused.
pub proof fn law_claimed_until_published<P>(start: InstanceModel<P>)
    requires
        start.wf(),
        !start.is_initialized,
    ensures
        start.claimed().is_initialized,
        start.claimed().place is None,
        start.claimed().claimed() == start.claimed(),
        start.claimed().follows(start),
{
}

/// The one `QemuHooks` of a process is claimed and then published. From then on
/// it is the one that hooks run on.
pub proof fn law_ready_once_published<P>(start: InstanceModel<P>, place: P)
    requires
        start.wf(),
        !start.is_initialized,
    ensures
        ({
            let ready = start.claimed().published(place);
            &&& ready.follows(start.claimed())
            &&& ready.follows(start)
            &&& ready.wf()
            &&& ready.is_initialized
            &&& ready.place == Some(place)
        }),
{
}

/// When the emulator calls the wrapper of a hook, the hook is called on the
/// published `QemuHooks`, with the arguments that the wrapper got.
pub proof fn law_wrapper_calls_its_hook<P, C, R: Clone, A>(
    model: RegistryModel<P, C>,
    hooks: P,
    wrapper: Wrapper,
    data: HookData<P>,
    hook: Hook<P, C, R>,
    args: A,
)
    requires
        runs(model, Some(Callback::Wrapper(wrapper)), data, hook),
    ensures
        hook.spec_target() is Some,
        model.call(hooks, wrapper, data, args) == Some(
            HookCall { hooks, target: hook.spec_target()->0, args },
        ),
{
}

/// A generation wrapper has its hook to run, and answers with the id that the
/// hook returns, or asks for no execution hook where it returns none.
pub proof fn law_generation_hook_is_answered<P, C, R: Clone, A>(
    model: RegistryModel<P, C>,
    hooks: P,
    wrapper: Wrapper,
    data: HookData<P>,
    hook: Hook<P, C, R>,
    args: A,
    returned: Option<u64>,
)
    requires
        runs(model, Some(Callback::Wrapper(wrapper)), data, hook),
    ensures
        model.call(hooks, wrapper, data, args) is Some,
        crate::registry::spec_gen_hook_id(Some(returned)) == (match returned {
            Some(id) => id,
            None => SKIP_EXEC_HOOK,
        }),
{
}

/// Installing hooks of one kind changes the hooks of no other kind.
pub proof fn law_kinds_are_separate<P, C>(
    model: RegistryModel<P, C>,
    kind: TableKind,
    group: GroupModel<P, C>,
    closure_kind: HookKind,
    id: HookId,
    closure: C,
)
    ensures
        ({
            let after = model.push_group(kind, group);
            &&& forall|other: TableKind|
                other != kind ==> #[trigger] after.groups(other) == model.groups(other)
            &&& forall|other: HookKind| #[trigger] after.closures(other) == model.closures(other)
            &&& after.crash == model.crash
        }),
        ({
            let after = model.push_closure(closure_kind, id, closure);
            &&& forall|other: HookKind|
                other != closure_kind ==> #[trigger] after.closures(other) == model.closures(other)
            &&& forall|other: TableKind| #[trigger] after.groups(other) == model.groups(other)
            &&& after.crash == model.crash
        }),
{
}

/// Every crash hook runs, once, in the order in which they were added.
pub proof fn law_every_crash_hook_runs<P, C>(
    model: RegistryModel<P, C>,
    hooks: P,
    target_sig: i32,
)
    requires
        model.wf(),
    ensures
        model.crash_calls(hooks, target_sig).len() == model.crash.len(),
        forall|i: int|
            0 <= i < model.crash.len() ==> {
                &&& (#[trigger] model.crash[i]).spec_target() is Some
                &&& model.crash_calls(hooks, target_sig)[i] == (HookCall {
                    hooks,
                    target: model.crash[i].spec_target()->0,
                    args: target_sig,
                })
            },
{
    lemma_crash_calls(model.crash, hooks, target_sig);
}

/// Without empty hooks there is one call for each.
proof fn lemma_crash_calls<P, C>(crash: Seq<HookRepr<P, C>>, hooks: P, target_sig: i32)
    requires
        forall|i: int| 0 <= i < crash.len() ==> !(#[trigger] crash[i] is Empty),
    ensures
        crate::model::crash_calls(crash, hooks, target_sig).len() == crash.len(),
        forall|i: int|
            0 <= i < crash.len() ==> crate::model::crash_calls(crash, hooks, target_sig)[i] == (
            HookCall {
                hooks,
                target: (#[trigger] crash[i]).spec_target()->0,
                args: target_sig,
            }),
    decreases crash.len(),
{
    if crash.len() > 0 {
        let shorter = crash.drop_last();
        assert forall|i: int| 0 <= i < shorter.len() implies !(#[trigger] shorter[i] is Empty) by {
            assert(shorter[i] == crash[i]);
        }
        lemma_crash_calls(shorter, hooks, target_sig);
        assert(!(crash[crash.len() - 1] is Empty));
        assert forall|i: int| 0 <= i < crash.len() implies crate::model::crash_calls(
            crash,
            hooks,
            target_sig,
        )[i] == (HookCall {
            hooks,
            target: (#[trigger] crash[i]).spec_target()->0,
            args: target_sig,
        }) by {
            if i < shorter.len() {
                assert(shorter[i] == crash[i]);
            }
        }
    }
}

/// Crash hooks that are added run after those that were there, and change
/// nothing for them.
pub proof fn law_crash_hooks_keep_their_order<P, C>(
    earlier: RegistryModel<P, C>,
    later: RegistryModel<P, C>,
    hooks: P,
    target_sig: i32,
)
    requires
        later.follows(earlier),
        earlier.wf(),
    ensures
        earlier.crash_calls(hooks, target_sig).is_prefix_of(later.crash_calls(hooks, target_sig)),
{
    law_every_crash_hook_runs(earlier, hooks, target_sig);
    law_every_crash_hook_runs(later, hooks, target_sig);
    let before = earlier.crash_calls(hooks, target_sig);
    let after = later.crash_calls(hooks, target_sig);
    assert forall|i: int| 0 <= i < before.len() implies before[i] == after[i] by {
        assert(earlier.crash[i] == later.crash[i]);
    }
    assert(before =~= after.subrange(0, before.len() as int));
}

/// A hook of a kind that is installed one at a time is found by its wrapper,
/// from then on. Without a hook the emulator is asked for nothing and nothing
/// is kept.
pub proof fn law_hook_is_run<P, C, R: Clone>(
    before: HookRegistry<P, C>,
    kind: HookKind,
    hook: Hook<P, C, R>,
    id: HookId,
    later: HookRegistry<P, C>,
)
    requires
        later@.follows(crate::qemu_hooks::with_hook(before@, kind, hook, id)),
    ensures
        match crate::qemu_hooks::hook_request(before@, kind, hook) {
            Some(request) => runs(later@, Some(request.callback), request.data, hook),
            None => hook is Empty,
        },
        hook is Empty ==> crate::qemu_hooks::with_hook(before@, kind, hook, id) == before@,
        hook is Closure ==> later@.closures(kind)[before@.closures(kind).len() as int] == (
            id,
            hook->Closure_0,
        ),
{
    before.law_slots_fit();
    let after = crate::qemu_hooks::with_hook(before@, kind, hook, id);
    assert(after.closures(kind).is_prefix_of(later@.closures(kind)));
    if let Hook::Closure(c) = hook {
        let slot = before@.closures(kind).len() as int;
        assert(after.closures(kind)[slot] == (id, c));
    }
}

/// A closure is found, and no other is, by what the emulator gets with it, from
/// then on: whatever its kind, however many closures came before and after.
pub proof fn law_closure_is_found<P, C, R>(
    before: HookRegistry<P, C>,
    kind: HookKind,
    closure: C,
    id: HookId,
    later: HookRegistry<P, C>,
)
    requires
        later@.follows(before@.push_closure(kind, id, closure)),
    ensures
        ({
            let request = crate::qemu_hooks::closure_request::<P, C, R>(before@, kind);
            &&& request.callback == Callback::<R>::Wrapper(Wrapper::Closure(kind))
            &&& later@.target(Wrapper::Closure(kind), request.data) == Some(
                HookTarget::<P, C>::Closure(closure),
            )
        }),
{
    before.law_slots_fit();
    let after = before@.push_closure(kind, id, closure);
    let slot = before@.closures(kind).len() as int;
    assert(after.closures(kind).is_prefix_of(later@.closures(kind)));
    assert(after.closures(kind)[slot] == (id, closure));
}

/// A function is found, and no other is, by what the emulator gets with it:
/// whatever its kind, and whatever hooks there are.
pub proof fn law_function_is_found<P, C, R>(kind: HookKind, function: P, later: HookRegistry<P, C>)
    ensures
        ({
            let request = crate::qemu_hooks::function_request::<P, R>(kind, function);
            &&& request.callback == Callback::<R>::Wrapper(Wrapper::Func(kind))
            &&& later@.target(Wrapper::Func(kind), request.data) == Some(
                HookTarget::<P, C>::Function(function),
            )
        }),
{
}

/// As `law_hook_is_run`, for the hook on an instruction.
pub proof fn law_instruction_hook_is_run<P, C, R: Clone>(
    before: HookRegistry<P, C>,
    addr: GuestAddr,
    hook: Hook<P, C, R>,
    invalidate_block: bool,
    id: HookId,
    later: HookRegistry<P, C>,
)
    requires
        later@.follows(crate::qemu_hooks::with_hook(before@, HookKind::Generic, hook, id)),
    ensures
        match crate::qemu_hooks::instruction_request(before@, addr, hook, invalidate_block) {
            Some(request) => {
                &&& runs(later@, Some(request.callback), request.data, hook)
                &&& request.addr == addr
                &&& request.invalidate_block == invalidate_block
            },
            None => hook is Empty,
        },
{
    law_hook_is_run(before, HookKind::Generic, hook, id, later);
}

/// A group stays in its slot.
proof fn lemma_group_stays<P, C>(
    before: HookRegistry<P, C>,
    kind: TableKind,
    group: GroupModel<P, C>,
    later: HookRegistry<P, C>,
)
    requires
        later@.follows(before@.push_group(kind, group)),
    ensures
        later@.group_at(kind, before@.next_group(kind)) == Some(group),
{
    before.law_slots_fit();
    let after = before@.push_group(kind, group);
    assert(after.groups(kind).is_prefix_of(later@.groups(kind)));
    assert(after.groups(kind)[before@.groups(kind).len() as int] == group);
}

/// The hooks on edges are found by the wrappers that the emulator got for
/// them, from then on, and are kept with the id that it answered.
pub proof fn law_edges_are_run<P, C, G: Clone, X: Clone>(
    before: HookRegistry<P, C>,
    generation_hook: Hook<P, C, G>,
    execution_hook: Hook<P, C, X>,
    id: HookId,
    later: HookRegistry<P, C>,
)
    requires
        later@.follows(
            before@.push_group(
                TableKind::Edge,
                crate::qemu_hooks::edges_group(
                    generation_hook,
                    execution_hook,
                    id,
                ),
            ),
        ),
    ensures
        ({
            let request = crate::qemu_hooks::edges_request(
                before@,
                generation_hook,
                execution_hook,
            );
            &&& runs(later@, request.gen, request.data, generation_hook)
            &&& runs(later@, request.execution, request.data, execution_hook)
            &&& later@.group_at(TableKind::Edge, request.data) matches Some(group)
            &&& group.id == id
        }),
{
    let group = crate::qemu_hooks::edges_group(
        generation_hook,
        execution_hook,
        id,
    );
    lemma_group_stays(before, TableKind::Edge, group, later);
}

/// The hooks on blocks are found by the wrappers that the emulator got for
/// them, from then on, and are kept with the id that it answered.
pub proof fn law_blocks_are_run<P, C, G: Clone, B: Clone, X: Clone>(
    before: HookRegistry<P, C>,
    generation_hook: Hook<P, C, G>,
    post_generation_hook: Hook<P, C, B>,
    execution_hook: Hook<P, C, X>,
    id: HookId,
    later: HookRegistry<P, C>,
)
    requires
        later@.follows(
            before@.push_group(
                TableKind::Block,
                crate::qemu_hooks::blocks_group(
                    generation_hook,
                    post_generation_hook,
                    execution_hook,
                    id,
                ),
            ),
        ),
    ensures
        ({
            let request = crate::qemu_hooks::blocks_request(
                before@,
                generation_hook,
                post_generation_hook,
                execution_hook,
            );
            &&& runs(later@, request.gen, request.data, generation_hook)
            &&& runs(later@, request.post_gen, request.data, post_generation_hook)
            &&& runs(later@, request.execution, request.data, execution_hook)
            &&& later@.group_at(TableKind::Block, request.data) matches Some(group)
            &&& group.id == id
        }),
{
    let group = crate::qemu_hooks::blocks_group(
        generation_hook,
        post_generation_hook,
        execution_hook,
        id,
    );
    lemma_group_stays(before, TableKind::Block, group, later);
}

/// The hooks on reads are found by the wrappers that the emulator got for
/// them, from then on, and are kept with the id that it answered.
pub proof fn law_reads_are_run<P, C, G: Clone, X: Clone, N: Clone>(
    before: HookRegistry<P, C>,
    generation_hook: Hook<P, C, G>,
    execution_hook_1: Hook<P, C, X>,
    execution_hook_2: Hook<P, C, X>,
    execution_hook_4: Hook<P, C, X>,
    execution_hook_8: Hook<P, C, X>,
    execution_hook_n: Hook<P, C, N>,
    id: HookId,
    later: HookRegistry<P, C>,
)
    requires
        later@.follows(
            before@.push_group(
                TableKind::Read,
                crate::qemu_hooks::reads_group(
                    generation_hook,
                    execution_hook_1,
                    execution_hook_2,
                    execution_hook_4,
                    execution_hook_8,
                    execution_hook_n,
                    id,
                ),
            ),
        ),
    ensures
        ({
            let request = crate::qemu_hooks::reads_request(
                before@,
                generation_hook,
                execution_hook_1,
                execution_hook_2,
                execution_hook_4,
                execution_hook_8,
                execution_hook_n,
            );
            &&& runs(later@, request.gen, request.data, generation_hook)
            &&& runs(later@, request.exec1, request.data, execution_hook_1)
            &&& runs(later@, request.exec2, request.data, execution_hook_2)
            &&& runs(later@, request.exec4, request.data, execution_hook_4)
            &&& runs(later@, request.exec8, request.data, execution_hook_8)
            &&& runs(later@, request.execn, request.data, execution_hook_n)
            &&& later@.group_at(TableKind::Read, request.data) matches Some(group)
            &&& group.id == id
        }),
{
    let group = crate::qemu_hooks::reads_group(
        generation_hook,
        execution_hook_1,
        execution_hook_2,
        execution_hook_4,
        execution_hook_8,
        execution_hook_n,
        id,
    );
    lemma_group_stays(before, TableKind::Read, group, later);
}

/// The hooks on writes are found by the wrappers that the emulator got for
/// them, from then on, and are kept with the id that it answered.
pub proof fn law_writes_are_run<P, C, G: Clone, X: Clone, N: Clone>(
    before: HookRegistry<P, C>,
    generation_hook: Hook<P, C, G>,
    execution_hook_1: Hook<P, C, X>,
    execution_hook_2: Hook<P, C, X>,
    execution_hook_4: Hook<P, C, X>,
    execution_hook_8: Hook<P, C, X>,
    execution_hook_n: Hook<P, C, N>,
    id: HookId,
    later: HookRegistry<P, C>,
)
    requires
        later@.follows(
            before@.push_group(
                TableKind::Write,
                crate::qemu_hooks::writes_group(
                    generation_hook,
                    execution_hook_1,
                    execution_hook_2,
                    execution_hook_4,
                    execution_hook_8,
                    execution_hook_n,
                    id,
                ),
            ),
        ),
    ensures
        ({
            let request = crate::qemu_hooks::writes_request(
                before@,
                generation_hook,
                execution_hook_1,
                execution_hook_2,
                execution_hook_4,
                execution_hook_8,
                execution_hook_n,
            );
            &&& runs(later@, request.gen, request.data, generation_hook)
            &&& runs(later@, request.exec1, request.data, execution_hook_1)
            &&& runs(later@, request.exec2, request.data, execution_hook_2)
            &&& runs(later@, request.exec4, request.data, execution_hook_4)
            &&& runs(later@, request.exec8, request.data, execution_hook_8)
            &&& runs(later@, request.execn, request.data, execution_hook_n)
            &&& later@.group_at(TableKind::Write, request.data) matches Some(group)
            &&& group.id == id
        }),
{
    let group = crate::qemu_hooks::writes_group(
        generation_hook,
        execution_hook_1,
        execution_hook_2,
        execution_hook_4,
        execution_hook_8,
        execution_hook_n,
        id,
    );
    lemma_group_stays(before, TableKind::Write, group, later);
}

/// The two callbacks do the same: neither is there, both are the same raw
/// function, or both are wrappers that make the same call.
pub open spec fn same_callback<P, C, R, A>(
    model: RegistryModel<P, C>,
    hooks: P,
    first: Option<Callback<R>>,
    first_data: HookData<P>,
    second: Option<Callback<R>>,
    second_data: HookData<P>,
    args: A,
) -> bool {
    match (first, second) {
        (None, None) => true,
        (Some(Callback::Raw(a)), Some(Callback::Raw(b))) => a == b,
        (Some(Callback::Wrapper(a)), Some(Callback::Wrapper(b))) => {
            model.call(hooks, a, first_data, args) == model.call(hooks, b, second_data, args)
        },
        _ => false,
    }
}

/// Hooks on writes are to writes what the same hooks on reads are to reads: the
/// same is kept of them, the emulator is asked for the same, and each callback
/// makes the same call.
pub proof fn law_writes_are_as_reads<P, C, G: Clone, X: Clone, N: Clone, A>(
    before_reads: HookRegistry<P, C>,
    before_writes: HookRegistry<P, C>,
    generation_hook: Hook<P, C, G>,
    execution_hook_1: Hook<P, C, X>,
    execution_hook_2: Hook<P, C, X>,
    execution_hook_4: Hook<P, C, X>,
    execution_hook_8: Hook<P, C, X>,
    execution_hook_n: Hook<P, C, N>,
    reads_id: HookId,
    writes_id: HookId,
    later: HookRegistry<P, C>,
    hooks: P,
    args: A,
)
    requires
        later@.follows(
            before_reads@.push_group(
                TableKind::Read,
                crate::qemu_hooks::reads_group(
                    generation_hook,
                    execution_hook_1,
                    execution_hook_2,
                    execution_hook_4,
                    execution_hook_8,
                    execution_hook_n,
                    reads_id,
                ),
            ),
        ),
        later@.follows(
            before_writes@.push_group(
                TableKind::Write,
                crate::qemu_hooks::writes_group(
                    generation_hook,
                    execution_hook_1,
                    execution_hook_2,
                    execution_hook_4,
                    execution_hook_8,
                    execution_hook_n,
                    writes_id,
                ),
            ),
        ),
    ensures
        crate::qemu_hooks::writes_group(
            generation_hook,
            execution_hook_1,
            execution_hook_2,
            execution_hook_4,
            execution_hook_8,
            execution_hook_n,
            writes_id,
        ) == crate::qemu_hooks::reads_group(
            generation_hook,
            execution_hook_1,
            execution_hook_2,
            execution_hook_4,
            execution_hook_8,
            execution_hook_n,
            reads_id,
        ).with_id(writes_id),
        ({
            let reads = crate::qemu_hooks::reads_request(
                before_reads@,
                generation_hook,
                execution_hook_1,
                execution_hook_2,
                execution_hook_4,
                execution_hook_8,
                execution_hook_n,
            );
            let writes = crate::qemu_hooks::writes_request(
                before_writes@,
                generation_hook,
                execution_hook_1,
                execution_hook_2,
                execution_hook_4,
                execution_hook_8,
                execution_hook_n,
            );
            &&& same_callback(
                later@,
                hooks,
                reads.gen,
                reads.data,
                writes.gen,
                writes.data,
                args,
            )
            &&& same_callback(
                later@,
                hooks,
                reads.exec1,
                reads.data,
                writes.exec1,
                writes.data,
                args,
            )
            &&& same_callback(
                later@,
                hooks,
                reads.exec2,
                reads.data,
                writes.exec2,
                writes.data,
                args,
            )
            &&& same_callback(
                later@,
                hooks,
                reads.exec4,
                reads.data,
                writes.exec4,
                writes.data,
                args,
            )
            &&& same_callback(
                later@,
                hooks,
                reads.exec8,
                reads.data,
                writes.exec8,
                writes.data,
                args,
            )
            &&& same_callback(
                later@,
                hooks,
                reads.execn,
                reads.data,
                writes.execn,
                writes.data,
                args,
            )
        }),
{
    law_reads_are_run(
        before_reads,
        generation_hook,
        execution_hook_1,
        execution_hook_2,
        execution_hook_4,
        execution_hook_8,
        execution_hook_n,
        reads_id,
        later,
    );
    law_writes_are_run(
        before_writes,
        generation_hook,
        execution_hook_1,
        execution_hook_2,
        execution_hook_4,
        execution_hook_8,
        execution_hook_n,
        writes_id,
        later,
    );
}

/// The hooks on comparisons are found by the wrappers that the emulator got for
/// them, from then on, and are kept with the id that it answered.
pub proof fn law_cmps_are_run<P, C, G: Clone, X1: Clone, X2: Clone, X4: Clone, X8: Clone>(
    before: HookRegistry<P, C>,
    generation_hook: Hook<P, C, G>,
    execution_hook_1: Hook<P, C, X1>,
    execution_hook_2: Hook<P, C, X2>,
    execution_hook_4: Hook<P, C, X4>,
    execution_hook_8: Hook<P, C, X8>,
    id: HookId,
    later: HookRegistry<P, C>,
)
    requires
        later@.follows(
            before@.push_group(
                TableKind::Compare,
                crate::qemu_hooks::cmps_group(
                    generation_hook,
                    execution_hook_1,
                    execution_hook_2,
                    execution_hook_4,
                    execution_hook_8,
                    id,
                ),
            ),
        ),
    ensures
        ({
            let request = crate::qemu_hooks::cmps_request(
                before@,
                generation_hook,
                execution_hook_1,
                execution_hook_2,
                execution_hook_4,
                execution_hook_8,
            );
            &&& runs(later@, request.gen, request.data, generation_hook)
            &&& runs(later@, request.exec1, request.data, execution_hook_1)
            &&& runs(later@, request.exec2, request.data, execution_hook_2)
            &&& runs(later@, request.exec4, request.data, execution_hook_4)
            &&& runs(later@, request.exec8, request.data, execution_hook_8)
            &&& later@.group_at(TableKind::Compare, request.data) matches Some(group)
            &&& group.id == id
        }),
{
    let group = crate::qemu_hooks::cmps_group(
        generation_hook,
        execution_hook_1,
        execution_hook_2,
        execution_hook_4,
        execution_hook_8,
        id,
    );
    lemma_group_stays(before, TableKind::Compare, group, later);
}

} // verus!
