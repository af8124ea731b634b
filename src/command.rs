//! The LED command protocol: byte pairs `[target, action]`.

use vstd::prelude::*;

verus! {

/// Size in bytes of one encoded command.
pub const COMMAND_SIZE: usize = 2;

/// The LED that a command addresses.
#[derive(Clone, Copy, Debug, PartialEq, Eq, Structural)]
pub enum Target {
    Red,
    Green,
    Blue,
}

/// What a command does to its LED.
#[derive(Clone, Copy, Debug, PartialEq, Eq, Structural)]
pub enum Action {
    On,
    Off,
}

/// A decoded command.
#[derive(Clone, Copy, Debug, PartialEq, Eq, Structural)]
pub struct Command {
    pub target: Target,
    pub action: Action,
}

impl Target {
    /// The wire byte of the target.
    pub open spec fn byte(self) -> u8 {
        match self {
            Target::Red => 0xAA,
            Target::Green => 0xBB,
            Target::Blue => 0xCC,
        }
    }

    /// The target that a wire byte names, if any.
    pub open spec fn from_byte(value: u8) -> Option<Target> {
        if value == 0xAA {
            Some(Target::Red)
        } else if value == 0xBB {
            Some(Target::Green)
        } else if value == 0xCC {
            Some(Target::Blue)
        } else {
            None
        }
    }

    pub fn as_u8(&self) -> (r: u8)
        ensures
            r == self.byte(),
            Target::from_byte(r) == Some(*self),
    {
        match self {
            Target::Red => 0xAA,
            Target::Green => 0xBB,
            Target::Blue => 0xCC,
        }
    }

    pub fn from_u8(value: u8) -> (r: Option<Target>)
        ensures
            r == Target::from_byte(value),
            r matches Some(t) ==> t.byte() == value,
            r is None <==> (value != 0xAA && value != 0xBB && value != 0xCC),
    {
        match value {
            0xAA => Some(Target::Red),
            0xBB => Some(Target::Green),
            0xCC => Some(Target::Blue),
            _ => None,
        }
    }
}

impl Action {
    /// The wire byte of the action.
    pub open spec fn byte(self) -> u8 {
        match self {
            Action::On => 0x01,
            Action::Off => 0x02,
        }
    }

    /// The action that a wire byte names, if any.
    pub open spec fn from_byte(value: u8) -> Option<Action> {
        if value == 0x01 {
            Some(Action::On)
        } else if value == 0x02 {
            Some(Action::Off)
        } else {
            None
        }
    }

    pub fn as_u8(&self) -> (r: u8)
        ensures
            r == self.byte(),
            Action::from_byte(r) == Some(*self),
    {
        match self {
            Action::On => 0x01,
            Action::Off => 0x02,
        }
    }

    pub fn from_u8(value: u8) -> (r: Option<Action>)
        ensures
            r == Action::from_byte(value),
            r matches Some(a) ==> a.byte() == value,
            r is None <==> (value != 0x01 && value != 0x02),
    {
        match value {
            0x01 => Some(Action::On),
            0x02 => Some(Action::Off),
            _ => None,
        }
    }
}

/// The command that the pair `(target, action)` encodes, if both bytes are
/// recognised.
pub open spec fn decode_spec(target: u8, action: u8) -> Option<Command> {
    match (Target::from_byte(target), Action::from_byte(action)) {
        (Some(t), Some(a)) => Some(Command { target: t, action: a }),
        _ => None,
    }
}

/// One decode attempt per full chunk of `packet`; a trailing partial chunk
/// is not attempted.
pub open spec fn attempts(packet: Seq<u8>) -> Seq<Option<Command>> {
    Seq::new(
        packet.len() / 2,
        |i: int| decode_spec(packet[2 * i], packet[2 * i + 1]),
    )
}

/// The commands among `attempts`, in order; failed attempts are dropped.
pub open spec fn recognised(attempts: Seq<Option<Command>>) -> Seq<Command>
    decreases attempts.len(),
{
    if attempts.len() == 0 {
        Seq::empty()
    } else {
        let front = recognised(attempts.drop_last());
        match attempts.last() {
            Some(c) => front.push(c),
            None => front,
        }
    }
}

/// The commands that `packet` carries, in order.
pub open spec fn commands_of(packet: Seq<u8>) -> Seq<Command> {
    recognised(attempts(packet))
}

impl Command {
    pub open spec fn bytes(self) -> (u8, u8) {
        (self.target.byte(), self.action.byte())
    }

    /// Decodes one chunk; `None` when either byte is not recognised.
    pub fn decode(target: u8, action: u8) -> (r: Option<Command>)
        ensures
            r == decode_spec(target, action),
            r matches Some(c) ==> c.bytes() == (target, action),
            r is None <==> (Target::from_byte(target) is None || Action::from_byte(action) is None),
    {
        match (Target::from_u8(target), Action::from_u8(action)) {
            (Some(t), Some(a)) => Some(Command { target: t, action: a }),
            _ => None,
        }
    }

    /// The two wire bytes of the command.
    pub fn encode(&self) -> (r: [u8; 2])
        ensures
            r@ == seq![self.target.byte(), self.action.byte()],
            decode_spec(r@[0], r@[1]) == Some(*self),
    {
        [self.target.as_u8(), self.action.as_u8()]
    }
}

/// Splits `packet` into chunks of `COMMAND_SIZE` bytes and decodes each; a
/// trailing partial chunk is discarded.
pub fn decode_chunks(packet: &[u8]) -> (r: Vec<Option<Command>>)
    ensures
        r@ == attempts(packet@),
        r@.len() == packet@.len() / 2,
        forall|i: int|
            0 <= i < r@.len() ==> #[trigger] r@[i] == decode_spec(packet@[2 * i], packet@[2 * i + 1]),
{
    let n: usize = packet.len() / COMMAND_SIZE;
    let mut out: Vec<Option<Command>> = Vec::with_capacity(n);
    let mut i: usize = 0;
    while i < n
        invariant
            n == packet@.len() / 2,
            i <= n,
            out@ =~= attempts(packet@).take(i as int),
        decreases n - i,
    {
        let c = Command::decode(packet[2 * i], packet[2 * i + 1]);
        out.push(c);
        i = i + 1;
    }
    out
}

} // verus!
