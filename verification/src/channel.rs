//! The control channel, by which the weather service hands in its replies.

use crossbeam_channel::Sender;
use vstd::prelude::*;

use crate::control::{ControlCommand, ControlCommandView};

verus! {

/// A way onto the control channel. It accounts for the commands that were offered to the channel over
/// it, and for those that the channel took, each in order; only [`ControlLink::put`] adds to them.
/// Its value is the commands that the channel took.
pub struct ControlLink {
    tx: Sender<ControlCommand>,
    offered: Ghost<Seq<ControlCommandView>>,
    taken: Ghost<Seq<ControlCommandView>>,
}

impl View for ControlLink {
    type V = Seq<ControlCommandView>;

    closed spec fn view(&self) -> Seq<ControlCommandView> {
        self.taken@
    }
}

impl ControlLink {
    /// The commands that were offered to the channel over this link, taken or not.
    pub closed spec fn offers(&self) -> Seq<ControlCommandView> {
        self.offered@
    }

    /// A link by which nothing was offered yet.
    pub fn new(tx: Sender<ControlCommand>) -> (r: Self)
        ensures
            r@ == Seq::<ControlCommandView>::empty(),
            r.offers() == Seq::<ControlCommandView>::empty(),
    {
        ControlLink { tx, offered: Ghost(Seq::empty()), taken: Ghost(Seq::empty()) }
    }

    /// Puts `command` on the control channel.
    ///
    /// Calls `crossbeam_channel::Sender::send`, once: the command is the next one offered over the
    /// link. A command that the channel takes is also the next one taken. A command that is refused,
    /// because the other end of the channel is gone, comes back as it was. Whether it is refused
    /// depends on the other end, and is not said here; nor is when the receiver gets to it. On a
    /// bounded channel that is full the call waits for the receiver.
    #[verifier::external_body]
    pub(crate) fn put(&mut self, command: ControlCommand) -> (r: Result<(), ControlCommand>)
        ensures
            final(self).offers() == old(self).offers().push(command@),
            match r {
                Ok(()) => final(self)@ == old(self)@.push(command@),
                Err(refused) => refused == command && final(self)@ == old(self)@,
            },
    {
        self.offered = Ghost(self.offered@.push(command@));
        let taken: Ghost<Seq<ControlCommandView>> = Ghost(self.taken@.push(command@));
        match self.tx.send(command) {
            Ok(()) => {
                self.taken = taken;
                Ok(())
            },
            Err(e) => Err(e.0),
        }
    }
}

} // verus!
