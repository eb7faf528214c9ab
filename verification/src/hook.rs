//! Hooks as the user gives them, and as they are kept.

use vstd::prelude::*;

use crate::emulator::{Callback, Wrapper};

verus! {

/// A hook as the user gives it: a function, a closure, or a raw function that
/// the emulator calls without going through the hooks; or none.
pub enum Hook<F, C, R: Clone> {
    Function(F),
    Closure(C),
    Raw(R),
    Empty,
}

/// A hook as it is kept. `P` and `C` are a function and a closure whose
/// signatures have been erased.
#[derive(Clone, Copy, PartialEq, Eq, Debug)]
pub enum HookRepr<P, C> {
    Function(P),
    Closure(C),
    Empty,
}

/// A hook to be run.
#[derive(Clone, Copy, PartialEq, Eq, Debug)]
pub enum HookTarget<P, C> {
    Function(P),
    Closure(C),
}

impl<F, C, R: Clone> Hook<F, C, R> {
    /// The hook that a wrapper has to run for it. A raw hook needs no wrapper.
    pub open spec fn spec_target(self) -> Option<HookTarget<F, C>> {
        match self {
            Hook::Function(f) => Some(HookTarget::Function(f)),
            Hook::Closure(c) => Some(HookTarget::Closure(c)),
            Hook::Raw(_) => None,
            Hook::Empty => None,
        }
    }

    /// The callback that the emulator gets for it, where `replacement` is the
    /// wrapper that can run it.
    pub open spec fn spec_callback(self, replacement: Wrapper) -> Option<Callback<R>> {
        match self {
            Hook::Raw(r) => Some(Callback::Raw(r)),
            Hook::Empty => None,
            _ => Some(Callback::Wrapper(replacement)),
        }
    }

    /// What is kept of it. Raw hooks are managed by the emulator.
    pub open spec fn spec_repr(self) -> HookRepr<F, C> {
        match self {
            Hook::Function(f) => HookRepr::Function(f),
            Hook::Closure(c) => HookRepr::Closure(c),
            _ => HookRepr::Empty,
        }
    }

    /// Whether there is no hook.
    pub fn is_empty(&self) -> (empty: bool)
        ensures
            empty == (self is Empty),
    {
        matches!(self, Hook::Empty)
    }
}

impl<P, C> HookRepr<P, C> {
    /// The hook that is kept, if there is one.
    pub open spec fn spec_target(self) -> Option<HookTarget<P, C>> {
        match self {
            HookRepr::Function(p) => Some(HookTarget::Function(p)),
            HookRepr::Closure(c) => Some(HookTarget::Closure(c)),
            HookRepr::Empty => None,
        }
    }
}

impl<P: Copy, C: Copy> HookRepr<P, C> {
    /// The hook that is kept, if there is one.
    pub fn target(&self) -> (target: Option<HookTarget<P, C>>)
        ensures
            target == self.spec_target(),
    {
        match self {
            HookRepr::Function(p) => Some(HookTarget::Function(*p)),
            HookRepr::Closure(c) => Some(HookTarget::Closure(*c)),
            HookRepr::Empty => None,
        }
    }
}

/// The callback that the emulator gets for `hook`: the raw function itself,
/// nothing where there is no hook, and otherwise `replacement`.
pub fn get_raw_hook<F, C, R: Clone>(hook: Hook<F, C, R>, replacement: Wrapper) -> (callback: Option<
    Callback<R>,
>)
    ensures
        callback == hook.spec_callback(replacement),
{
    match hook {
        Hook::Function(_) | Hook::Closure(_) => Some(Callback::Wrapper(replacement)),
        Hook::Raw(r) => Some(Callback::Raw(r)),
        Hook::Empty => None,
    }
}

/// What is kept of `hook` for the wrapper that runs it.
pub fn hook_to_repr<P: Copy, C: Copy, R: Clone>(hook: &Hook<P, C, R>) -> (repr: HookRepr<P, C>)
    ensures
        repr == hook.spec_repr(),
{
    match hook {
        Hook::Function(f) => HookRepr::Function(*f),
        Hook::Closure(c) => HookRepr::Closure(*c),
        Hook::Raw(_) => HookRepr::Empty,
        Hook::Empty => HookRepr::Empty,
    }
}

} // verus!
