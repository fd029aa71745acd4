//! The connection slot: the single holder of the current send-half.

use vstd::prelude::*;

verus! {

/// Why a text could not be sent.
#[derive(Debug, Clone, Copy, PartialEq, Eq, Structural)]
pub enum SendFailure {
    /// No send-half is installed.
    NotConnected,
    /// The transport rejected the text.
    SendError,
}

/// Holds the send-half of the current connection, or nothing.
///
/// Every method takes the slot exclusively, so an installation and a send
/// never overlap: a send sees the slot either before or after an
/// installation, never in between.
#[derive(Debug)]
pub struct ConnectionSlot<H> {
    current: Option<H>,
}

impl<H> View for ConnectionSlot<H> {
    type V = Option<H>;

    closed spec fn view(&self) -> Option<H> {
        self.current
    }
}

/// What a send finds in a slot: the installed send-half, or the failure to
/// report when there is none.
pub open spec fn send_gate<H>(slot: Option<H>) -> Result<H, SendFailure> {
    match slot {
        Some(half) => Ok(half),
        None => Err(SendFailure::NotConnected),
    }
}

/// A change to what the slot holds.
pub enum SlotChange<H> {
    /// A send-half is installed.
    Install(H),
    /// The slot is emptied.
    Clear,
}

/// The slot after one change: what was there before does not matter.
pub open spec fn changed<H>(slot: Option<H>, change: SlotChange<H>) -> Option<H> {
    match change {
        SlotChange::Install(half) => Some(half),
        SlotChange::Clear => None,
    }
}

/// The slot after `changes` were made to `slot` one after the other.
pub open spec fn after_changes<H>(slot: Option<H>, changes: Seq<SlotChange<H>>) -> Option<H>
    decreases changes.len(),
{
    if changes.len() == 0 {
        slot
    } else {
        changed(after_changes(slot, changes.drop_last()), changes.last())
    }
}

impl<H> ConnectionSlot<H> {
    /// An empty slot.
    pub fn new() -> (slot: Self)
        ensures
            slot@ is None,
    {
        ConnectionSlot { current: None }
    }

    /// Whether a send-half is installed.
    pub fn is_connected(&self) -> (connected: bool)
        ensures
            connected == self@.is_some(),
    {
        self.current.is_some()
    }

    /// Puts `new_half` into the slot and hands back what the slot held, so
    /// that the caller can close it.
    pub fn install(&mut self, new_half: H) -> (previous: Option<H>)
        ensures
            final(self)@ == changed(old(self)@, SlotChange::Install(new_half)),
            previous == old(self)@,
    {
        let previous = self.current.take();
        self.current = Some(new_half);
        previous
    }

    /// Empties the slot and hands back what it held.
    pub fn clear(&mut self) -> (previous: Option<H>)
        ensures
            final(self)@ == changed(old(self)@, SlotChange::<H>::Clear),
            previous == old(self)@,
    {
        self.current.take()
    }

    /// Lends the installed send-half for one send.
    ///
    /// Fails with `NotConnected` exactly when the slot is empty. The slot
    /// keeps the send-half, with whatever the send did to it.
    pub fn take_for_send(&mut self) -> (lent: Result<&mut H, SendFailure>)
        ensures
            match send_gate(old(self)@) {
                Ok(half) => lent is Ok && *lent->Ok_0 == half && final(self)@ == Some(
                    *final(lent->Ok_0),
                ),
                Err(failure) => lent == Err::<&mut H, SendFailure>(failure) && final(self)@
                    is None,
            },
    {
        match self.current.as_mut() {
            Some(half) => Ok(half),
            None => Err(SendFailure::NotConnected),
        }
    }
}

/// A send that follows an installation gets the send-half that was
/// installed, or the one that replaced it.
///
/// Whatever the slot held and whatever was done to it before, once `half` is
/// installed a send finds `half`; and when the installations `later`
/// followed, it finds the last of them. It never finds an older send-half
/// or an empty slot.
pub proof fn lemma_send_sees_last_install<H>(
    slot: Option<H>,
    earlier: Seq<SlotChange<H>>,
    half: H,
    later: Seq<H>,
)
    ensures
        send_gate(
            after_changes(
                slot,
                earlier.push(SlotChange::Install(half)) + later.map_values(
                    |next: H| SlotChange::Install(next),
                ),
            ),
        ) == Ok::<H, SendFailure>(
            if later.len() == 0 {
                half
            } else {
                later.last()
            },
        ),
{
    let installs = later.map_values(|next: H| SlotChange::Install(next));
    let changes = earlier.push(SlotChange::Install(half)) + installs;
    if later.len() == 0 {
        assert(changes =~= earlier.push(SlotChange::Install(half)));
    } else {
        assert(changes.last() == installs.last());
    }
}

} // verus!
