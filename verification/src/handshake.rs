//! The handshake that opens a programming session: five commands in order, each
//! sent again until the radio answers it.
use vstd::prelude::*;

use crate::protocol::SUCCESS;

verus! {

/// The number of commands in the handshake.
pub const HANDSHAKE_STEPS: u8 = 5;

/// How many failed reads a step tolerates before it moves on anyway.
pub const HANDSHAKE_RETRIES: u8 = 3;

/// The command sent in a step: the program mode request `02 "M59GRAM"`, then `02`,
/// `06`, `05` and `06`.
pub open spec fn step_command(step: int) -> Seq<u8> {
    if step == 0 {
        seq![0x02u8, 0x4d, 0x35, 0x39, 0x47, 0x52, 0x41, 0x4d]
    } else if step == 1 {
        seq![0x02u8]
    } else if step == 2 {
        seq![0x06u8]
    } else if step == 3 {
        seq![0x05u8]
    } else {
        seq![0x06u8]
    }
}

/// The length of the radio's answer in a step.
pub open spec fn step_reply_length(step: int) -> int {
    if step == 1 {
        7
    } else if step == 3 {
        3
    } else {
        1
    }
}

/// Whether a reply ends a step: in step 3 any reply does, in the others one that
/// starts with the success byte.
pub open spec fn ends_step(step: int, reply: Seq<u8>) -> bool {
    step == 3 || reply[0] == SUCCESS
}

/// Where the handshake stands.
pub struct Handshake {
    step: u8,
    retries: u8,
}

impl Handshake {
    #[verifier::type_invariant]
    spec fn well_formed(self) -> bool {
        self.step <= HANDSHAKE_STEPS && self.retries <= HANDSHAKE_RETRIES
    }

    /// The step under way; `HANDSHAKE_STEPS` once the handshake is done.
    pub closed spec fn step(self) -> int {
        self.step as int
    }

    /// The failed reads the current step still tolerates.
    pub closed spec fn retries(self) -> int {
        self.retries as int
    }

    /// A handshake at its first step.
    pub fn new() -> (handshake: Handshake)
        ensures
            handshake.step() == 0,
            handshake.retries() == HANDSHAKE_RETRIES,
            handshake.retries() == 3,
    {
        Handshake { step: 0, retries: HANDSHAKE_RETRIES }
    }

    /// Whether all steps are done.
    pub fn is_connected(&self) -> (connected: bool)
        ensures
            connected == (self.step() == HANDSHAKE_STEPS),
            connected == (self.step() == 5),
            0 <= self.step() <= HANDSHAKE_STEPS,
            0 <= self.retries() <= HANDSHAKE_RETRIES,
    {
        proof {
            use_type_invariant(self);
        }
        self.step == HANDSHAKE_STEPS
    }

    /// The command to send now.
    pub fn command(&self) -> (command: Vec<u8>)
        ensures
            command@ == step_command(self.step()),
    {
        let command: Vec<u8> = if self.step == 0 {
            vec![0x02, 0x4d, 0x35, 0x39, 0x47, 0x52, 0x41, 0x4d]
        } else if self.step == 1 {
            vec![0x02]
        } else if self.step == 2 {
            vec![0x06]
        } else if self.step == 3 {
            vec![0x05]
        } else {
            vec![0x06]
        };
        assert(command@ =~= step_command(self.step()));
        command
    }

    /// The length of the reply to read for the command.
    pub fn reply_length(&self) -> (length: usize)
        ensures
            length == step_reply_length(self.step()),
    {
        if self.step == 1 {
            7
        } else if self.step == 3 {
            3
        } else {
            1
        }
    }

    /// Takes the outcome of a read: the reply, or `None` where reading failed. A reply
    /// that ends the step, or a failed read with no retries left, moves on to the next
    /// step with all retries; another failed read uses up a retry; another reply
    /// leaves the state as it is, so the command is sent again.
    pub fn receive(&mut self, reply: Option<&[u8]>)
        requires
            old(self).step() < HANDSHAKE_STEPS,
            reply matches Some(bytes) ==> bytes@.len() == step_reply_length(old(self).step()),
        ensures
            reply matches Some(bytes) ==> (old(self).step() != 3 && bytes@[0] != 0x06 <==> final(
                self).step() == old(self).step()),
            reply matches Some(bytes) ==> final(self).retries() == if old(self).step() != 3
                && bytes@[0] != 0x06 {
                old(self).retries()
            } else {
                3
            },
            match reply {
                Some(bytes) => if ends_step(old(self).step(), bytes@) {
                    final(self).step() == old(self).step() + 1 && final(self).retries()
                        == HANDSHAKE_RETRIES
                } else {
                    final(self).step() == old(self).step() && final(self).retries()
                        == old(self).retries()
                },
                None => if old(self).retries() == 0 {
                    final(self).step() == old(self).step() + 1 && final(self).retries()
                        == HANDSHAKE_RETRIES
                } else {
                    final(self).step() == old(self).step() && final(self).retries()
                        == old(self).retries() - 1
                },
            },
    {
        proof {
            use_type_invariant(&*self);
        }
        let advance = match reply {
            Some(bytes) => self.step == 3 || bytes[0] == SUCCESS,
            None => self.retries == 0,
        };
        if advance {
            *self = Handshake { step: self.step + 1, retries: HANDSHAKE_RETRIES };
        } else if reply.is_none() {
            *self = Handshake { step: self.step, retries: self.retries - 1 };
        }
    }
}

/// Only step 3 ends on any reply; every other step ends only on a reply that starts
/// with the success byte `06`, and any step ends on such a reply.
pub proof fn lemma_steps_wait_for_success(step: int, reply: Seq<u8>)
    requires
        0 <= step < HANDSHAKE_STEPS,
        reply.len() >= 1,
    ensures
        step != 3 && reply[0] != 0x06 ==> !ends_step(step, reply),
        step == 3 ==> ends_step(step, reply),
        reply[0] == 0x06 ==> ends_step(step, reply),
{
}

/// The commands of the handshake and the lengths of the replies, step by step.
pub proof fn lemma_handshake_commands()
    ensures
        step_command(0) == seq![0x02u8, 0x4d, 0x35, 0x39, 0x47, 0x52, 0x41, 0x4d],
        step_reply_length(0) == 1,
        step_command(1) == seq![0x02u8] && step_reply_length(1) == 7,
        step_command(2) == seq![0x06u8] && step_reply_length(2) == 1,
        step_command(3) == seq![0x05u8] && step_reply_length(3) == 3,
        step_command(4) == seq![0x06u8] && step_reply_length(4) == 1,
{
}

} // verus!
