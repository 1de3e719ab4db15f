//! Commands to the amplifier: one opcode byte and a short payload, written
//! once over a fresh connection with no acknowledgement.

use vstd::prelude::*;

verus! {

/// Port of the amplifier's command endpoint.
pub const CONTROL_PORT: u16 = 1337;

/// Local port on which the datagrams arrive.
pub const LISTEN_PORT: u16 = 31337;

/// Number of marks that have a key of their own.
pub const KEYED_MARKS: usize = 6;

/// A command that the amplifier understands.
#[derive(Clone, Copy, Debug, PartialEq, Eq, Structural)]
pub enum ControlCommand {
    /// Stamp the stream with an event mark.
    Mark(u8),
    /// Start streaming.
    StartStreaming,
    /// Enter noise-measurement mode.
    NoiseOn,
    /// Leave noise-measurement mode.
    NoiseOff,
    /// Enter test mode.
    TestOn,
    /// Leave test mode.
    TestOff,
    /// Enable the impedance check.
    ImpedanceOn,
}

/// What goes over the wire for an opcode and a payload.
pub open spec fn wire(opcode: u8, payload: Seq<u8>) -> Seq<u8> {
    seq![opcode] + payload
}

impl ControlCommand {
    /// The opcode byte of the command.
    pub open spec fn opcode_of(self) -> u8 {
        match self {
            ControlCommand::Mark(_) => 0x33,
            ControlCommand::StartStreaming => 0x55,
            ControlCommand::NoiseOn => 0x66,
            ControlCommand::NoiseOff => 0xaa,
            ControlCommand::TestOn => 0x77,
            ControlCommand::TestOff => 0xaa,
            ControlCommand::ImpedanceOn => 0xdd,
        }
    }

    /// The payload of the command: the mark value, a single 1 for a mode
    /// switch, nothing otherwise.
    pub open spec fn payload_of(self) -> Seq<u8> {
        match self {
            ControlCommand::Mark(value) => seq![value],
            ControlCommand::StartStreaming => Seq::empty(),
            ControlCommand::NoiseOn => seq![1u8],
            ControlCommand::NoiseOff => seq![1u8],
            ControlCommand::TestOn => seq![1u8],
            ControlCommand::TestOff => seq![1u8],
            ControlCommand::ImpedanceOn => Seq::empty(),
        }
    }

    /// The opcode byte of the command.
    pub fn opcode(&self) -> (opcode: u8)
        ensures
            opcode == self.opcode_of(),
    {
        match self {
            ControlCommand::Mark(_) => 0x33,
            ControlCommand::StartStreaming => 0x55,
            ControlCommand::NoiseOn => 0x66,
            ControlCommand::NoiseOff => 0xaa,
            ControlCommand::TestOn => 0x77,
            ControlCommand::TestOff => 0xaa,
            ControlCommand::ImpedanceOn => 0xdd,
        }
    }

    /// The payload of the command.
    pub fn payload(&self) -> (payload: Vec<u8>)
        ensures
            payload@ == self.payload_of(),
    {
        let mut payload: Vec<u8> = Vec::new();
        match self {
            ControlCommand::Mark(value) => {
                payload.push(*value);
            },
            ControlCommand::StartStreaming => {},
            ControlCommand::ImpedanceOn => {},
            _ => {
                payload.push(1);
            },
        }
        assert(payload@ =~= self.payload_of());
        payload
    }

    /// The bytes to write for the command.
    pub fn encode(&self) -> (bytes: Vec<u8>)
        ensures
            bytes@ == wire(self.opcode_of(), self.payload_of()),
    {
        let payload: Vec<u8> = self.payload();
        command_bytes(self.opcode(), payload.as_slice())
    }
}

/// The bytes to write for an opcode and a payload: the opcode, then the
/// payload as it is.
pub fn command_bytes(cmd: u8, payload: &[u8]) -> (bytes: Vec<u8>)
    ensures
        bytes@ == wire(cmd, payload@),
{
    let n: usize = payload.len();
    let mut bytes: Vec<u8> = Vec::new();
    bytes.push(cmd);
    let mut i: usize = 0;
    while i < n
        invariant
            i <= n,
            n == payload@.len(),
            bytes@ == seq![cmd] + payload@.subrange(0, i as int),
        decreases n - i,
    {
        bytes.push(payload[i]);
        i += 1;
        assert(bytes@ =~= seq![cmd] + payload@.subrange(0, i as int));
    }
    assert(bytes@ =~= wire(cmd, payload@));
    bytes
}

/// The commands that open a session, in the order in which they are sent:
/// start streaming, then enable the impedance check.
pub fn startup_commands() -> (commands: Vec<ControlCommand>)
    ensures
        commands@ == seq![ControlCommand::StartStreaming, ControlCommand::ImpedanceOn],
{
    let mut commands: Vec<ControlCommand> = Vec::new();
    commands.push(ControlCommand::StartStreaming);
    commands.push(ControlCommand::ImpedanceOn);
    assert(commands@ =~= seq![ControlCommand::StartStreaming, ControlCommand::ImpedanceOn]);
    commands
}

/// The mark command of the key number `key` of the mark row, counted from
/// 0: key `i` sends mark `i + 1`. There are six such keys.
pub fn mark_for_key(key: usize) -> (command: Option<ControlCommand>)
    ensures
        command == if key < KEYED_MARKS {
            Some(ControlCommand::Mark((key + 1) as u8))
        } else {
            None
        },
{
    if key < KEYED_MARKS {
        Some(ControlCommand::Mark((key + 1) as u8))
    } else {
        None
    }
}

/// The measurement modes of the amplifier as the operator has set them. At
/// most one of them is on at a time.
#[derive(Clone, Copy, Debug, PartialEq, Eq, Structural)]
pub struct Modes {
    pub test: bool,
    pub noise: bool,
    pub impedance: bool,
}

impl Modes {
    /// At most one mode is on.
    pub open spec fn exclusive(self) -> bool {
        !(self.test && self.noise) && !(self.test && self.impedance) && !(self.noise
            && self.impedance)
    }

    /// Whether the test mode may be switched: the amplifier is connected
    /// and no other mode is on.
    pub open spec fn may_toggle_test(self, connected: bool) -> bool {
        connected && !self.noise && !self.impedance
    }

    /// Whether the noise mode may be switched: the amplifier is connected
    /// and no other mode is on.
    pub open spec fn may_toggle_noise(self, connected: bool) -> bool {
        connected && !self.test && !self.impedance
    }

    /// All modes off.
    pub fn new() -> (modes: Self)
        ensures
            modes == (Modes { test: false, noise: false, impedance: false }),
            modes.exclusive(),
    {
        Modes { test: false, noise: false, impedance: false }
    }

    /// The operator asks to switch the test mode. Where that is allowed the
    /// mode flips and the command to send is returned; otherwise nothing
    /// changes.
    pub fn toggle_test(&mut self, connected: bool) -> (command: Option<ControlCommand>)
        ensures
            old(self).may_toggle_test(connected) ==> *final(self) == (Modes {
                test: !old(self).test,
                ..*old(self)
            }) && command == Some(
                if old(self).test {
                    ControlCommand::TestOff
                } else {
                    ControlCommand::TestOn
                },
            ),
            !old(self).may_toggle_test(connected) ==> *final(self) == *old(self) && command
                is None,
            old(self).exclusive() ==> final(self).exclusive(),
    {
        if connected && !self.noise && !self.impedance {
            self.test = !self.test;
            if self.test {
                Some(ControlCommand::TestOn)
            } else {
                Some(ControlCommand::TestOff)
            }
        } else {
            None
        }
    }

    /// The operator asks to switch the noise mode. Where that is allowed
    /// the mode flips and the command to send is returned; otherwise
    /// nothing changes.
    pub fn toggle_noise(&mut self, connected: bool) -> (command: Option<ControlCommand>)
        ensures
            old(self).may_toggle_noise(connected) ==> *final(self) == (Modes {
                noise: !old(self).noise,
                ..*old(self)
            }) && command == Some(
                if old(self).noise {
                    ControlCommand::NoiseOff
                } else {
                    ControlCommand::NoiseOn
                },
            ),
            !old(self).may_toggle_noise(connected) ==> *final(self) == *old(self) && command
                is None,
            old(self).exclusive() ==> final(self).exclusive(),
    {
        if connected && !self.test && !self.impedance {
            self.noise = !self.noise;
            if self.noise {
                Some(ControlCommand::NoiseOn)
            } else {
                Some(ControlCommand::NoiseOff)
            }
        } else {
            None
        }
    }
}

} // verus!
