//! The one `QemuHooks` of a process.

use vstd::prelude::*;

verus! {

/// What is known of the one `QemuHooks` of a process.
#[verifier::ext_equal]
pub struct InstanceModel<P> {
    /// Whether it has been claimed: there may be no second.
    pub is_initialized: bool,
    /// Where it is, once it is ready for use by hooks.
    pub place: Option<P>,
}

impl<P> InstanceModel<P> {
    /// It has been claimed, whether or not it was before.
    pub open spec fn claimed(self) -> Self {
        InstanceModel { is_initialized: true, ..self }
    }

    /// It is ready, at `place`.
    pub open spec fn published(self, place: P) -> Self {
        InstanceModel { is_initialized: true, place: Some(place) }
    }

    /// What holds in every process: what is ready has been claimed.
    pub open spec fn wf(self) -> bool {
        self.place is Some ==> self.is_initialized
    }

    /// This is known in a process in which `earlier` was: the claim stands, and
    /// what was ready is still where it was.
    pub open spec fn follows(self, earlier: Self) -> bool {
        &&& earlier.is_initialized ==> self.is_initialized
        &&& earlier.place is Some ==> self.place == earlier.place
        &&& earlier.wf() ==> self.wf()
    }
}

/// Whether the one `QemuHooks` of a process has been claimed, and where it is.
/// `P` is the type of an address.
pub struct Instance<P> {
    is_initialized: bool,
    place: Option<P>,
}

/// The right to set up the one `QemuHooks` of a process. Only a first claim
/// gives it.
pub struct Permit {
    claimed: (),
}

/// A `QemuHooks` that has been set up and can be published. Only setting one up
/// gives it.
pub struct Ready<P> {
    place: P,
}

impl<P> View for Instance<P> {
    type V = InstanceModel<P>;

    closed spec fn view(&self) -> InstanceModel<P> {
        InstanceModel { is_initialized: self.is_initialized, place: self.place }
    }
}

impl<P> View for Ready<P> {
    type V = P;

    closed spec fn view(&self) -> P {
        self.place
    }
}

impl<P> Ready<P> {
    /// The `QemuHooks` at `place` has been set up.
    pub(crate) fn at(place: P) -> (ready: Self)
        ensures
            ready@ == place,
    {
        Ready { place }
    }
}

impl<P: Copy> Instance<P> {
    /// A process without a `QemuHooks`.
    pub fn new() -> (instance: Self)
        ensures
            instance@ == (InstanceModel::<P> { is_initialized: false, place: None }),
            instance@.wf(),
    {
        Instance { is_initialized: false, place: None }
    }

    /// Whether the one `QemuHooks` has been claimed.
    pub fn is_initialized(&self) -> (initialized: bool)
        ensures
            initialized == self@.is_initialized,
    {
        self.is_initialized
    }

    /// Where the one `QemuHooks` is, once it is ready for use by hooks.
    pub fn place(&self) -> (place: Option<P>)
        ensures
            place == self@.place,
    {
        self.place
    }

    /// Claims the one `QemuHooks`. A claim is refused exactly where there was
    /// one before, and a refused claim changes nothing.
    pub fn claim(&mut self) -> (permit: Option<Permit>)
        ensures
            permit is Some <==> !old(self)@.is_initialized,
            permit is None ==> final(self)@ == old(self)@,
            final(self)@ == old(self)@.claimed(),
            final(self)@.wf(),
            final(self)@.follows(old(self)@),
    {
        if self.is_initialized {
            None
        } else {
            self.is_initialized = true;
            Some(Permit { claimed: () })
        }
    }

    /// Makes the one `QemuHooks` ready for use by hooks.
    pub fn publish(&mut self, ready: Ready<P>)
        ensures
            final(self)@ == old(self)@.published(ready@),
            final(self)@.wf(),
            old(self)@.place is None ==> final(self)@.follows(old(self)@),
    {
        self.is_initialized = true;
        self.place = Some(ready.place);
    }
}

} // verus!
