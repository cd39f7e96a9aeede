use vstd::prelude::*;

verus! {

/// A slot of the shared pin registry: it holds at most one line handle, is filled once at
/// start-up, and is then reached only through exclusive borrows. The critical section that
/// serialises the two execution contexts wraps the slot; every access goes through `&mut`,
/// so no context can see a handle while another one is writing it.
pub struct PinSlot<T> {
    handle: Option<T>,
}

impl<T> PinSlot<T> {
    /// The handle the slot holds, if any.
    pub closed spec fn view_handle(&self) -> Option<T> {
        self.handle
    }

    /// An empty slot.
    pub fn new() -> (r: PinSlot<T>)
        ensures
            r.view_handle() is None,
    {
        PinSlot { handle: None }
    }

    /// Whether a handle has been installed.
    pub fn is_installed(&self) -> (r: bool)
        ensures
            r == self.view_handle() is Some,
    {
        self.handle.is_some()
    }

    /// Whether the slot can take a handle: it is filled once, so only while it is empty.
    pub open spec fn can_install(&self) -> bool {
        self.view_handle() is None
    }

    /// Moves `handle` into an empty slot. Installing into a filled slot is a fault of the
    /// caller, left out here; a caller that cannot rule it out tests `is_installed` first.
    pub fn install(&mut self, handle: T)
        requires
            old(self).can_install(),
        ensures
            final(self).view_handle() == Some(handle),
    {
        self.handle = Some(handle);
    }

    /// Exclusive access to the installed handle, for as long as the borrow lasts. Whatever
    /// is written through the returned reference is what the slot holds afterwards.
    pub fn handle_mut(&mut self) -> (r: &mut T)
        requires
            old(self).view_handle() is Some,
        ensures
            *r == old(self).view_handle().unwrap(),
            final(self).view_handle() == Some(*final(r)),
    {
        match &mut self.handle {
            Some(h) => h,
            None => vstd::pervasive::unreached(),
        }
    }
}

/// A slot is filled once: after an installation it holds that handle, no longer admits
/// another one, and reports itself installed.
pub proof fn lemma_installed_slot_refuses_second_install<T>(slot: PinSlot<T>, handle: T)
    requires
        slot.view_handle() == Some(handle),
    ensures
        !slot.can_install(),
        slot.view_handle() is Some,
{
}

} // verus!
