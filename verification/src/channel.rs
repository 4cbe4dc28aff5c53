//! The single-slot command channel: at most one command is in flight, from the
//! moment it is placed until its handling ends.
//!
//! The channel is one value that the sending and the receiving side share
//! behind a lock of the caller's choice. A wake signal of capacity one tells
//! the receiver that a command was placed; the receiver then marks the slot as
//! held for the time of the handling and empties it when the handling ends.

use vstd::prelude::*;

verus! {

/// Why a command was not accepted, or why the receiver stops waiting.
#[derive(Clone, Copy, Debug, PartialEq, Eq, Structural)]
pub enum InProgressCmdChannelError {
    /// The receiver holds the slot: the previous command is being handled.
    AlreadyLocked,
    /// The previous command was placed and waits to be handled.
    CommandInProgress,
    /// The other side of the channel is gone.
    ChannelBroken,
}

impl InProgressCmdChannelError {
    /// Whether the error says "busy" rather than "broken".
    pub open spec fn is_busy(self) -> bool {
        self == InProgressCmdChannelError::AlreadyLocked || self
            == InProgressCmdChannelError::CommandInProgress
    }

    /// The text of the error.
    pub fn message(&self) -> (r: &'static str)
        ensures
            r@ == (match *self {
                InProgressCmdChannelError::AlreadyLocked => "Already locked"@,
                InProgressCmdChannelError::CommandInProgress => "Command in progress"@,
                InProgressCmdChannelError::ChannelBroken => "Channel broken"@,
            }),
    {
        match self {
            InProgressCmdChannelError::AlreadyLocked => "Already locked",
            InProgressCmdChannelError::CommandInProgress => "Command in progress",
            InProgressCmdChannelError::ChannelBroken => "Channel broken",
        }
    }
}

/// What a channel holds.
pub struct ChannelView<T> {
    /// The command that was placed and whose handling has not ended.
    pub slot: Option<T>,
    /// The receiver holds the slot: a handler is running.
    pub locked: bool,
    /// A wake signal waits for the receiver.
    pub wake: bool,
    /// The sending side still exists.
    pub sender_alive: bool,
    /// The receiving side still exists.
    pub receiver_alive: bool,
}

impl<T> ChannelView<T> {
    /// A wake signal is only pending for a command that sits in the slot, and
    /// never while the receiver holds the slot.
    pub open spec fn wf(self) -> bool {
        &&& self.wake ==> self.slot is Some
        &&& self.locked ==> !self.wake
        &&& self.locked ==> self.receiver_alive
    }

    /// A command is in flight: it was placed and not yet cleared, or a handler runs.
    pub open spec fn in_flight(self) -> bool {
        self.slot is Some || self.locked
    }

    /// The channel right after creation.
    pub open spec fn fresh() -> ChannelView<T> {
        ChannelView {
            slot: None,
            locked: false,
            wake: false,
            sender_alive: true,
            receiver_alive: true,
        }
    }

    /// What a submission is answered with.
    pub open spec fn send_result(self) -> Result<(), InProgressCmdChannelError> {
        if self.locked {
            Err(InProgressCmdChannelError::AlreadyLocked)
        } else if self.slot is Some {
            Err(InProgressCmdChannelError::CommandInProgress)
        } else if !self.receiver_alive {
            Err(InProgressCmdChannelError::ChannelBroken)
        } else {
            Ok(())
        }
    }

    /// The channel after a submission of `message`.
    pub open spec fn after_send(self, message: T) -> ChannelView<T> {
        if self.send_result() is Ok {
            ChannelView { slot: Some(message), wake: true, ..self }
        } else {
            self
        }
    }

    /// What the receiver's look for a wake signal is answered with: `Ok(true)`
    /// for a signal, `Ok(false)` while there is none yet, and an error once no
    /// sender is left to post one.
    pub open spec fn poll_result(self) -> Result<bool, InProgressCmdChannelError> {
        if self.wake {
            Ok(true)
        } else if !self.sender_alive {
            Err(InProgressCmdChannelError::ChannelBroken)
        } else {
            Ok(false)
        }
    }

    /// The channel after the receiver looked for a wake signal.
    pub open spec fn after_poll(self) -> ChannelView<T> {
        ChannelView { wake: false, ..self }
    }

    /// The channel after the receiver took hold of the slot.
    pub open spec fn after_lock(self) -> ChannelView<T> {
        ChannelView { locked: true, wake: false, ..self }
    }

    /// The channel after the receiver let go of the slot: the slot is empty.
    pub open spec fn after_release(self) -> ChannelView<T> {
        ChannelView { slot: None, locked: false, ..self }
    }
}

/// Channel which allows to send only one message at a time and
/// wait for it to be handled.
pub struct InProgressChannel<T> {
    /// Is empty when previous message is handled.
    message_storage: Option<T>,
    locked: bool,
    wake: bool,
    sender_alive: bool,
    receiver_alive: bool,
}

impl<T> View for InProgressChannel<T> {
    type V = ChannelView<T>;

    closed spec fn view(&self) -> ChannelView<T> {
        ChannelView {
            slot: self.message_storage,
            locked: self.locked,
            wake: self.wake,
            sender_alive: self.sender_alive,
            receiver_alive: self.receiver_alive,
        }
    }
}

impl<T> InProgressChannel<T> {
    /// A channel with an empty slot and both sides alive.
    pub fn create() -> (r: InProgressChannel<T>)
        ensures
            r@ == ChannelView::<T>::fresh(),
            r@.wf(),
    {
        InProgressChannel {
            message_storage: None,
            locked: false,
            wake: false,
            sender_alive: true,
            receiver_alive: true,
        }
    }

    /// Places `message` in the slot and posts the wake signal, unless a command
    /// is in flight or the receiver is gone. A refused message changes nothing.
    pub fn send_message(&mut self, message: T) -> (r: Result<(), InProgressCmdChannelError>)
        requires
            old(self)@.wf(),
        ensures
            r == old(self)@.send_result(),
            final(self)@ == old(self)@.after_send(message),
            final(self)@.wf(),
            old(self)@.in_flight() ==> r is Err && r->Err_0.is_busy() && final(self)@ == old(
                self,
            )@,
            r is Ok ==> final(self)@.slot == Some(message) && final(self)@.in_flight(),
    {
        if self.locked {
            Err(InProgressCmdChannelError::AlreadyLocked)
        } else if self.message_storage.is_some() {
            Err(InProgressCmdChannelError::CommandInProgress)
        } else if !self.receiver_alive {
            Err(InProgressCmdChannelError::ChannelBroken)
        } else {
            self.message_storage = Some(message);
            self.wake = true;
            Ok(())
        }
    }

    /// Takes the wake signal if one is pending.
    pub fn is_new_message_available(&mut self) -> (r: Result<bool, InProgressCmdChannelError>)
        requires
            old(self)@.wf(),
        ensures
            r == old(self)@.poll_result(),
            final(self)@ == old(self)@.after_poll(),
            final(self)@.wf(),
            final(self)@.in_flight() == old(self)@.in_flight(),
    {
        if self.wake {
            self.wake = false;
            Ok(true)
        } else if !self.sender_alive {
            Err(InProgressCmdChannelError::ChannelBroken)
        } else {
            Ok(false)
        }
    }

    /// The receiver takes hold of the slot for the time of the handling.
    pub fn lock_message_container(&mut self)
        requires
            old(self)@.wf(),
            !old(self)@.locked,
            old(self)@.receiver_alive,
        ensures
            final(self)@ == old(self)@.after_lock(),
            final(self)@.wf(),
            final(self)@.in_flight(),
    {
        self.locked = true;
        self.wake = false;
    }

    /// The command in the slot, for the handler to read.
    pub fn get_message(&self) -> (r: Option<&T>)
        requires
            self@.locked,
        ensures
            r is Some == self@.slot is Some,
            r is Some ==> *r->0 == self@.slot->0,
    {
        self.message_storage.as_ref()
    }

    /// The receiver lets go of the slot: the handling has ended and the slot
    /// is empty again.
    pub fn release_message_container(&mut self)
        requires
            old(self)@.wf(),
            old(self)@.locked,
        ensures
            final(self)@ == old(self)@.after_release(),
            final(self)@.wf(),
            !final(self)@.in_flight(),
    {
        self.message_storage = None;
        self.locked = false;
    }

    /// The last sender is gone: the receiver's wait ends with an error once the
    /// pending wake signal is taken.
    pub fn close_sender(&mut self)
        requires
            old(self)@.wf(),
        ensures
            final(self)@ == (ChannelView { sender_alive: false, ..old(self)@ }),
            final(self)@.wf(),
    {
        self.sender_alive = false;
    }

    /// The receiver is gone: every later submission fails. A slot that the
    /// receiver held is cleared as at the end of a handling.
    pub fn close_receiver(&mut self)
        requires
            old(self)@.wf(),
        ensures
            final(self)@ == (ChannelView {
                receiver_alive: false,
                locked: false,
                slot: if old(self)@.locked {
                    None
                } else {
                    old(self)@.slot
                },
                ..old(self)@
            }),
            final(self)@.wf(),
    {
        if self.locked {
            self.message_storage = None;
            self.locked = false;
        }
        self.receiver_alive = false;
    }

    /// Whether a command is in flight.
    pub fn is_in_flight(&self) -> (r: bool)
        ensures
            r == self@.in_flight(),
    {
        self.message_storage.is_some() || self.locked
    }

    /// Whether the receiver holds the slot.
    pub fn is_locked(&self) -> (r: bool)
        ensures
            r == self@.locked,
    {
        self.locked
    }

    /// Whether the receiving side still exists.
    pub fn is_receiver_alive(&self) -> (r: bool)
        ensures
            r == self@.receiver_alive,
    {
        self.receiver_alive
    }
}

/// One thing that either side does to the channel while a command is in
/// flight, short of ending its handling.
pub enum ChannelOp<T> {
    /// Some sender submits a command.
    Send(T),
    /// The receiver looks for the wake signal.
    Poll,
    /// The receiver takes hold of the slot.
    Lock,
}

/// The channel after `op`.
pub open spec fn after_op<T>(c: ChannelView<T>, op: ChannelOp<T>) -> ChannelView<T> {
    match op {
        ChannelOp::Send(m) => c.after_send(m),
        ChannelOp::Poll => c.after_poll(),
        ChannelOp::Lock => c.after_lock(),
    }
}

/// The channel after the first `n` of `ops`.
pub open spec fn after_ops<T>(c: ChannelView<T>, ops: Seq<ChannelOp<T>>, n: int) -> ChannelView<T>
    decreases n,
{
    if n <= 0 {
        c
    } else {
        after_op(after_ops(c, ops, n - 1), ops[n - 1])
    }
}

/// At most one command is in flight. Once a submission was accepted, every
/// further submission is refused as busy and leaves the accepted command in
/// the slot, whatever the senders and the receiver do, until the receiver ends
/// the handling by letting go of the slot.
pub proof fn lemma_one_command_in_flight<T>(
    c: ChannelView<T>,
    first: T,
    ops: Seq<ChannelOp<T>>,
    n: int,
)
    requires
        c.wf(),
        c.send_result() is Ok,
        0 <= n <= ops.len(),
    ensures
        after_ops(c.after_send(first), ops, n).wf(),
        after_ops(c.after_send(first), ops, n).receiver_alive,
        after_ops(c.after_send(first), ops, n).slot == Some(first),
        after_ops(c.after_send(first), ops, n).send_result() is Err,
        after_ops(c.after_send(first), ops, n).send_result()->Err_0.is_busy(),
    decreases n,
{
    if n > 0 {
        lemma_one_command_in_flight(c, first, ops, n - 1);
    }
}

/// While the receiver holds the slot, the slot does not change: the handler
/// sees one and the same command from the moment the receiver takes hold of
/// the slot until it lets go, whatever the senders do meanwhile.
pub proof fn lemma_slot_is_stable_while_held<T>(c: ChannelView<T>, ops: Seq<ChannelOp<T>>, n: int)
    requires
        c.wf(),
        c.locked,
        0 <= n <= ops.len(),
    ensures
        after_ops(c, ops, n).wf(),
        after_ops(c, ops, n).locked,
        after_ops(c, ops, n).slot == c.slot,
    decreases n,
{
    if n > 0 {
        lemma_slot_is_stable_while_held(c, ops, n - 1);
    }
}

/// The wake signal is posted once for each command and taken once: the
/// receiver's first look after a submission finds it, and the next look
/// finds none.
pub proof fn lemma_wake_is_taken_once<T>(c: ChannelView<T>, message: T)
    requires
        c.wf(),
        c.send_result() is Ok,
    ensures
        c.after_send(message).poll_result() == Ok::<bool, InProgressCmdChannelError>(true),
        c.after_send(message).after_poll().poll_result() != Ok::<bool, InProgressCmdChannelError>(
            true,
        ),
        c.after_send(message).after_poll().slot == Some(message),
{
}

/// When the handling ends the slot is free again: the next submission is
/// accepted if the receiver is still there.
pub proof fn lemma_release_frees_slot<T>(c: ChannelView<T>)
    requires
        c.wf(),
        c.locked,
    ensures
        c.after_release().send_result() is Ok,
        !c.after_release().in_flight(),
{
}

} // verus!
