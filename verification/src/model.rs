//! The hooks of a process as mathematical values: what is kept, how a
//! registration changes it, and which hook each wrapper runs.

use vstd::prelude::*;

use crate::emulator::{HookData, HookId, HookKind, TableKind, Wrapper};
use crate::hook::{HookRepr, HookTarget};
use crate::registry::HookCall;

verus! {

/// A group of hooks that the emulator knows by one id.
#[verifier::ext_equal]
pub struct GroupModel<P, C> {
    pub id: HookId,
    pub gen: HookRepr<P, C>,
    pub post_gen: HookRepr<P, C>,
    pub execs: Seq<HookRepr<P, C>>,
}

impl<P, C> GroupModel<P, C> {
    pub open spec fn with_id(self, id: HookId) -> Self {
        GroupModel { id, ..self }
    }

    /// The execution hook number `index`; nothing beyond the last.
    pub open spec fn execution(self, index: usize) -> HookRepr<P, C> {
        if index < self.execs.len() {
            self.execs[index as int]
        } else {
            HookRepr::Empty
        }
    }

    /// A group as groups of `kind` are: with as many execution hooks as the
    /// kind has, and a post-generation hook only on blocks.
    pub open spec fn fits(self, kind: TableKind) -> bool {
        &&& self.execs.len() == kind.arity()
        &&& kind != TableKind::Block ==> self.post_gen is Empty
    }
}

/// All hooks of a process.
#[verifier::ext_equal]
pub struct RegistryModel<P, C> {
    /// Closures on instructions, with the id that the emulator gave each; so
    /// for the other kinds.
    pub generic: Seq<(HookId, C)>,
    pub backdoor: Seq<(HookId, C)>,
    pub pre_syscall: Seq<(HookId, C)>,
    pub post_syscall: Seq<(HookId, C)>,
    pub new_thread: Seq<(HookId, C)>,
    pub edge: Seq<GroupModel<P, C>>,
    pub block: Seq<GroupModel<P, C>>,
    pub read: Seq<GroupModel<P, C>>,
    pub write: Seq<GroupModel<P, C>>,
    pub compare: Seq<GroupModel<P, C>>,
    pub crash: Seq<HookRepr<P, C>>,
}

impl<P, C> RegistryModel<P, C> {
    /// No hooks.
    pub open spec fn empty() -> Self {
        RegistryModel {
            generic: seq![],
            backdoor: seq![],
            pre_syscall: seq![],
            post_syscall: seq![],
            new_thread: seq![],
            edge: seq![],
            block: seq![],
            read: seq![],
            write: seq![],
            compare: seq![],
            crash: seq![],
        }
    }

    /// The closures of one kind, by slot.
    pub open spec fn closures(self, kind: HookKind) -> Seq<(HookId, C)> {
        match kind {
            HookKind::Generic => self.generic,
            HookKind::Backdoor => self.backdoor,
            HookKind::PreSyscall => self.pre_syscall,
            HookKind::PostSyscall => self.post_syscall,
            HookKind::NewThread => self.new_thread,
        }
    }

    /// The same hooks but for the closures of one kind.
    pub open spec fn with_closures(self, kind: HookKind, closures: Seq<(HookId, C)>) -> Self {
        match kind {
            HookKind::Generic => RegistryModel { generic: closures, ..self },
            HookKind::Backdoor => RegistryModel { backdoor: closures, ..self },
            HookKind::PreSyscall => RegistryModel { pre_syscall: closures, ..self },
            HookKind::PostSyscall => RegistryModel { post_syscall: closures, ..self },
            HookKind::NewThread => RegistryModel { new_thread: closures, ..self },
        }
    }

    /// One closure more, in the next slot of its kind.
    pub open spec fn push_closure(self, kind: HookKind, id: HookId, closure: C) -> Self {
        self.with_closures(kind, self.closures(kind).push((id, closure)))
    }

    /// The groups of one kind, by slot.
    pub open spec fn groups(self, kind: TableKind) -> Seq<GroupModel<P, C>> {
        match kind {
            TableKind::Edge => self.edge,
            TableKind::Block => self.block,
            TableKind::Read => self.read,
            TableKind::Write => self.write,
            TableKind::Compare => self.compare,
        }
    }

    /// The same hooks but for the groups of one kind.
    pub open spec fn with_groups(self, kind: TableKind, groups: Seq<GroupModel<P, C>>) -> Self {
        match kind {
            TableKind::Edge => RegistryModel { edge: groups, ..self },
            TableKind::Block => RegistryModel { block: groups, ..self },
            TableKind::Read => RegistryModel { read: groups, ..self },
            TableKind::Write => RegistryModel { write: groups, ..self },
            TableKind::Compare => RegistryModel { compare: groups, ..self },
        }
    }

    /// One group more, in the next slot of its kind.
    pub open spec fn push_group(self, kind: TableKind, group: GroupModel<P, C>) -> Self {
        self.with_groups(kind, self.groups(kind).push(group))
    }

    /// One crash hook more.
    pub open spec fn push_crash(self, hook: HookRepr<P, C>) -> Self {
        RegistryModel { crash: self.crash.push(hook), ..self }
    }

    /// The slot that the next closure of `kind` gets.
    pub open spec fn next_closure(self, kind: HookKind) -> HookData<P> {
        HookData::Slot(self.closures(kind).len() as usize)
    }

    /// The slot that the next group of `kind` gets.
    pub open spec fn next_group(self, kind: TableKind) -> HookData<P> {
        HookData::Slot(self.groups(kind).len() as usize)
    }

    /// The group of `kind` that `data` denotes.
    pub open spec fn group_at(self, kind: TableKind, data: HookData<P>) -> Option<
        GroupModel<P, C>,
    > {
        match data {
            HookData::Slot(slot) if slot < self.groups(kind).len() => Some(
                self.groups(kind)[slot as int],
            ),
            _ => None,
        }
    }

    /// The hook that `wrapper` runs when the emulator hands it `data`. The
    /// crash wrapper is handed nothing: see `crash_calls`.
    pub open spec fn target(self, wrapper: Wrapper, data: HookData<P>) -> Option<
        HookTarget<P, C>,
    > {
        match wrapper {
            Wrapper::Func(_) => match data {
                HookData::Function(function) => Some(HookTarget::Function(function)),
                _ => None,
            },
            Wrapper::Closure(kind) => match data {
                HookData::Slot(slot) if slot < self.closures(kind).len() => Some(
                    HookTarget::Closure(self.closures(kind)[slot as int].1),
                ),
                _ => None,
            },
            Wrapper::Gen(kind) => match self.group_at(kind, data) {
                Some(group) => group.gen.spec_target(),
                None => None,
            },
            Wrapper::PostGen(kind) => match self.group_at(kind, data) {
                Some(group) => group.post_gen.spec_target(),
                None => None,
            },
            Wrapper::Exec(kind, index) => match self.group_at(kind, data) {
                Some(group) => group.execution(index).spec_target(),
                None => None,
            },
            Wrapper::Crash => None,
        }
    }

    /// The call that `wrapper` makes when the emulator calls it with `data` and
    /// `args`: the hook, on the `QemuHooks` at `hooks`, with the same arguments.
    pub open spec fn call<A>(
        self,
        hooks: P,
        wrapper: Wrapper,
        data: HookData<P>,
        args: A,
    ) -> Option<HookCall<P, C, A>> {
        match self.target(wrapper, data) {
            Some(target) => Some(HookCall { hooks, target, args }),
            None => None,
        }
    }

    /// The calls that the crash wrapper makes on a signal, in order.
    pub open spec fn crash_calls(self, hooks: P, target_sig: i32) -> Seq<HookCall<P, C, i32>> {
        crash_calls(self.crash, hooks, target_sig)
    }

    /// What holds of the hooks of every process: the groups are of their
    /// kind's shape, and no crash hook is empty.
    pub open spec fn wf(self) -> bool {
        &&& forall|kind: TableKind, slot: int|
            0 <= slot < self.groups(kind).len() ==> (#[trigger] self.groups(kind)[slot]).fits(kind)
        &&& forall|i: int| 0 <= i < self.crash.len() ==> !(#[trigger] self.crash[i] is Empty)
    }

    /// These are the hooks of a process that had the hooks `earlier`: every
    /// hook is still where it was, and what holds of all hooks still holds.
    pub open spec fn follows(self, earlier: Self) -> bool {
        &&& forall|kind: HookKind| #[trigger]
            earlier.closures(kind).is_prefix_of(self.closures(kind))
        &&& forall|kind: TableKind| #[trigger] earlier.groups(kind).is_prefix_of(self.groups(kind))
        &&& earlier.crash.is_prefix_of(self.crash)
        &&& earlier.wf() ==> self.wf()
    }
}

/// One call for each hook in `crash` that is not empty, in the same order.
pub open spec fn crash_calls<P, C>(crash: Seq<HookRepr<P, C>>, hooks: P, target_sig: i32) -> Seq<
    HookCall<P, C, i32>,
>
    decreases crash.len(),
{
    if crash.len() == 0 {
        seq![]
    } else {
        let earlier = crash_calls(crash.drop_last(), hooks, target_sig);
        match crash.last().spec_target() {
            Some(target) => earlier.push(HookCall { hooks, target, args: target_sig }),
            None => earlier,
        }
    }
}

/// Keeping a closure and then recording its id amounts to keeping it with that
/// id, and leaves everything else in place.
pub(crate) proof fn lemma_install_closure<P, C>(
    model: RegistryModel<P, C>,
    kind: HookKind,
    id: HookId,
    closure: C,
)
    ensures
        ({
            let kept = model.push_closure(kind, HookId(0), closure);
            let closures = kept.closures(kind).update(
                model.closures(kind).len() as int,
                (id, closure),
            );
            kept.with_closures(kind, closures) == model.push_closure(kind, id, closure)
        }),
        model.push_closure(kind, id, closure).follows(model),
{
    let after = model.push_closure(kind, id, closure);
    assert(model.closures(kind).push((HookId(0), closure)).update(
        model.closures(kind).len() as int,
        (id, closure),
    ) =~= model.closures(kind).push((id, closure)));
    assert forall|k: HookKind| #[trigger]
        model.closures(k).is_prefix_of(after.closures(k)) by {}
    assert forall|k: TableKind| #[trigger] model.groups(k).is_prefix_of(after.groups(k)) by {
        assert(after.groups(k) == model.groups(k));
    }
    assert(after.crash == model.crash);
    if model.wf() {
        assert forall|k: TableKind, slot: int| 0 <= slot < after.groups(k).len() implies (
        #[trigger] after.groups(k)[slot]).fits(k) by {
            assert(after.groups(k) == model.groups(k));
        }
    }
}

/// Keeping a group and then recording its id amounts to keeping it with that
/// id, and leaves everything else in place.
pub(crate) proof fn lemma_install_group<P, C>(
    model: RegistryModel<P, C>,
    kind: TableKind,
    group: GroupModel<P, C>,
    id: HookId,
)
    requires
        group.fits(kind),
    ensures
        ({
            let kept = model.push_group(kind, group);
            let groups = kept.groups(kind).update(
                model.groups(kind).len() as int,
                group.with_id(id),
            );
            kept.with_groups(kind, groups) == model.push_group(kind, group.with_id(id))
        }),
        model.push_group(kind, group.with_id(id)).follows(model),
{
    let after = model.push_group(kind, group.with_id(id));
    assert(model.groups(kind).push(group).update(
        model.groups(kind).len() as int,
        group.with_id(id),
    ) =~= model.groups(kind).push(group.with_id(id)));
    assert forall|k: HookKind| #[trigger]
        model.closures(k).is_prefix_of(after.closures(k)) by {
        assert(after.closures(k) == model.closures(k));
    }
    assert forall|k: TableKind| #[trigger] model.groups(k).is_prefix_of(after.groups(k)) by {}
    assert(after.crash == model.crash);
    if model.wf() {
        assert forall|k: TableKind, slot: int| 0 <= slot < after.groups(k).len() implies (
        #[trigger] after.groups(k)[slot]).fits(k) by {
            if slot < model.groups(k).len() {
                assert(model.groups(k)[slot].fits(k));
            }
        }
    }
}

/// Appending a crash hook leaves everything else in place.
pub(crate) proof fn lemma_push_crash_follows<P, C>(
    model: RegistryModel<P, C>,
    hook: HookRepr<P, C>,
)
    requires
        !(hook is Empty),
    ensures
        model.push_crash(hook).follows(model),
{
    let after = model.push_crash(hook);
    assert forall|k: HookKind| #[trigger]
        model.closures(k).is_prefix_of(after.closures(k)) by {
        assert(after.closures(k) == model.closures(k));
    }
    assert forall|k: TableKind| #[trigger] model.groups(k).is_prefix_of(after.groups(k)) by {
        assert(after.groups(k) == model.groups(k));
    }
    if model.wf() {
        assert forall|k: TableKind, slot: int| 0 <= slot < after.groups(k).len() implies (
        #[trigger] after.groups(k)[slot]).fits(k) by {
            assert(after.groups(k) == model.groups(k));
        }
    }
}

} // verus!
