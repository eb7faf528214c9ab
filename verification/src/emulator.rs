//! What passes between the hooks and the emulator.

use vstd::prelude::*;

verus! {

/// An address of the guest. Guests with narrower addresses use the low part.
pub type GuestAddr = u64;

/// The id with which a generation hook asks the emulator to run no execution
/// hook at the place it was asked about.
pub const SKIP_EXEC_HOOK: u64 = 0xffff_ffff_ffff_ffff;

/// The number by which the emulator knows an installed hook; 0 where the hook
/// is not installed (yet).
#[derive(Clone, Copy, PartialEq, Eq, Structural, Debug)]
pub struct HookId(pub usize);

/// The hooks that are installed one at a time.
#[derive(Clone, Copy, PartialEq, Eq, Structural, Debug)]
pub enum HookKind {
    /// An instruction at a given address is about to run.
    Generic,
    /// The guest ran the backdoor instruction.
    Backdoor,
    /// A system call is about to be made.
    PreSyscall,
    /// A system call has returned.
    PostSyscall,
    /// A guest thread was created.
    NewThread,
}

/// The hooks that are installed as a group: a generation hook that runs when
/// guest code is translated, and execution hooks that run with the code.
#[derive(Clone, Copy, PartialEq, Eq, Structural, Debug)]
pub enum TableKind {
    Edge,
    Block,
    Read,
    Write,
    Compare,
}

impl TableKind {
    /// How many execution hooks a group of this kind has.
    pub open spec fn arity(self) -> nat {
        match self {
            TableKind::Edge => 1,
            TableKind::Block => 1,
            TableKind::Read => 5,
            TableKind::Write => 5,
            TableKind::Compare => 4,
        }
    }
}

/// The entry points by which the emulator calls back. Each finds the hook that
/// it stands for and runs it.
#[derive(Clone, Copy, PartialEq, Eq, Structural, Debug)]
pub enum Wrapper {
    /// Runs the function that it is handed.
    Func(HookKind),
    /// Runs the closure in the slot that it is handed.
    Closure(HookKind),
    /// Runs the generation hook of the group in the slot that it is handed.
    Gen(TableKind),
    /// Runs the post-generation hook of the group in the slot that it is handed.
    PostGen(TableKind),
    /// Runs one of the execution hooks of the group in the slot that it is handed.
    Exec(TableKind, usize),
    /// Runs every crash hook. It is handed nothing.
    Crash,
}

/// A callback as the emulator gets it: one of the entry points, or a function
/// of the user that the emulator calls directly.
#[derive(PartialEq, Eq, Debug)]
pub enum Callback<R> {
    Wrapper(Wrapper),
    Raw(R),
}

/// What the emulator hands back with each call of a callback. `P` is the type
/// of a function whose signature has been erased.
#[derive(Clone, Copy, PartialEq, Eq, Debug)]
pub enum HookData<P> {
    Null,
    Function(P),
    Slot(usize),
}

/// Asks the emulator for a hook on the instruction at `addr`.
#[derive(PartialEq, Eq, Debug)]
pub struct SetHook<P, R> {
    pub data: HookData<P>,
    pub addr: GuestAddr,
    pub callback: Callback<R>,
    /// Whether the block around `addr` is to be translated anew.
    pub invalidate_block: bool,
}

/// Asks the emulator for a hook that needs no address.
#[derive(PartialEq, Eq, Debug)]
pub struct AddHook<P, R> {
    pub data: HookData<P>,
    pub callback: Callback<R>,
}

/// Asks the emulator for hooks on the edges between blocks.
#[derive(PartialEq, Eq, Debug)]
pub struct AddEdgeHooks<P, G, X> {
    pub data: HookData<P>,
    pub gen: Option<Callback<G>>,
    pub execution: Option<Callback<X>>,
}

/// Asks the emulator for hooks on blocks.
#[derive(PartialEq, Eq, Debug)]
pub struct AddBlockHooks<P, G, B, X> {
    pub data: HookData<P>,
    pub gen: Option<Callback<G>>,
    pub post_gen: Option<Callback<B>>,
    pub execution: Option<Callback<X>>,
}

/// Asks the emulator for hooks on reads or on writes of memory, by the size of
/// the access.
#[derive(PartialEq, Eq, Debug)]
pub struct AddAccessHooks<P, G, X, N> {
    pub data: HookData<P>,
    pub gen: Option<Callback<G>>,
    pub exec1: Option<Callback<X>>,
    pub exec2: Option<Callback<X>>,
    pub exec4: Option<Callback<X>>,
    pub exec8: Option<Callback<X>>,
    pub execn: Option<Callback<N>>,
}

/// Asks the emulator for hooks on comparisons, by the size of the operands.
#[derive(PartialEq, Eq, Debug)]
pub struct AddCompareHooks<P, G, X1, X2, X4, X8> {
    pub data: HookData<P>,
    pub gen: Option<Callback<G>>,
    pub exec1: Option<Callback<X1>>,
    pub exec2: Option<Callback<X2>>,
    pub exec4: Option<Callback<X4>>,
    pub exec8: Option<Callback<X8>>,
}

} // verus!
