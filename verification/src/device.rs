//! The serial link to the arm's controller board.
//!
//! The board understands two-byte frames: a tag, then a value. The link
//! remembers whether a port has been opened; every command sent before that
//! is refused with the same message.
use vstd::prelude::*;

verus! {

/// Tag of a vibration frame.
pub const VIBRATION_TAG: u8 = 8;

/// Tag of a contraction frame.
pub const CONTRACTION_TAG: u8 = 9;

/// Speed at which the dashboard opens the port.
pub const BAUDRATE: u32 = 9600;

/// How long a read or write on the port may wait, in milliseconds.
pub const PORT_TIMEOUT_MS: u64 = 1000;

/// A command for the controller board.
#[derive(Clone, Copy, Debug, PartialEq, Eq, Structural)]
pub enum DeviceCommand {
    /// Make the motor of body part `data` vibrate.
    Vibrate { data: u8 },
    /// Set a contraction. Only the contraction goes into the frame; the part
    /// it belongs to is not sent.
    Contract { contraction: u8, part_index: u8 },
}

/// The bytes written to the port for `cmd`.
pub open spec fn spec_frame(cmd: DeviceCommand) -> Seq<u8> {
    match cmd {
        DeviceCommand::Vibrate { data } => seq![VIBRATION_TAG, data],
        DeviceCommand::Contract { contraction, .. } => seq![CONTRACTION_TAG, contraction],
    }
}

impl DeviceCommand {
    /// The frame that carries this command: its tag, then its value.
    pub fn frame(&self) -> (bytes: Vec<u8>)
        ensures
            bytes@ == spec_frame(*self),
    {
        let mut bytes: Vec<u8> = Vec::new();
        match *self {
            DeviceCommand::Vibrate { data } => {
                bytes.push(VIBRATION_TAG);
                bytes.push(data);
            },
            DeviceCommand::Contract { contraction, .. } => {
                bytes.push(CONTRACTION_TAG);
                bytes.push(contraction);
            },
        }
        bytes
    }
}

/// What the link needs to open a port.
#[derive(Clone, Debug)]
pub struct PortSettings {
    pub port_name: String,
    pub baudrate: u32,
    pub timeout_ms: u64,
}

/// The settings with which `init_serial` opens the port `port_name`: the
/// given name and speed, and a timeout of one second.
pub fn port_settings(port_name: String, baudrate: u32) -> (s: PortSettings)
    ensures
        s.port_name == port_name,
        s.baudrate == baudrate,
        s.timeout_ms == PORT_TIMEOUT_MS,
{
    PortSettings { port_name, baudrate, timeout_ms: PORT_TIMEOUT_MS }
}

/// A serial port that the system lists: its name and the description of its
/// kind.
#[derive(Clone, Debug)]
pub struct PortInfo {
    pub port_name: String,
    pub port_type: String,
}

/// The ports to offer: the system's list, or none when it could not be read.
pub fn fetch_serial_ports(listing: Result<Vec<PortInfo>, String>) -> (ports: Vec<PortInfo>)
    ensures
        match listing {
            Ok(list) => ports@ == list@,
            Err(_) => ports@.len() == 0,
        },
{
    match listing {
        Ok(list) => list,
        Err(_) => Vec::new(),
    }
}

/// The message with which a command is refused while no port is open.
pub open spec fn not_initialized_message() -> Seq<char> {
    "Port non initialisé"@
}

/// What the link answers to a command: the frame to write, or the refusal.
pub open spec fn spec_send(open: bool, cmd: DeviceCommand) -> Result<Seq<u8>, Seq<char>> {
    if open {
        Ok(spec_frame(cmd))
    } else {
        Err(not_initialized_message())
    }
}

/// The serial link: whether a port is held open.
pub struct SerialLink {
    open: bool,
}

impl SerialLink {
    /// A port is held open.
    pub closed spec fn is_open(&self) -> bool {
        self.open
    }

    /// A link that holds no port yet.
    pub fn new() -> (link: SerialLink)
        ensures
            !link.is_open(),
    {
        SerialLink { open: false }
    }

    /// Whether a port is held open.
    pub fn is_port_open(&self) -> (b: bool)
        ensures
            b == self.is_open(),
    {
        self.open
    }

    /// Records the outcome of an attempt to open a port and answers it: a
    /// port that opened is held from then on; a failed attempt leaves the
    /// link as it was.
    pub fn init_serial(&mut self, opened: bool) -> (ok: bool)
        ensures
            ok == opened,
            final(self).is_open() == (old(self).is_open() || opened),
            final(self).is_open() == open_after(old(self).is_open(), seq![opened]),
    {
        let ghost before = self.open;
        assert(seq![opened].drop_last() =~= Seq::<bool>::empty());
        assert(open_after(before, Seq::<bool>::empty()) == before);
        assert(seq![opened].last() == opened);
        assert(open_after(before, seq![opened]) == (before || opened));
        if opened {
            self.open = true;
        }
        opened
    }

    /// Answers a command: the frame to write on the open port, or the
    /// refusal when no port is open.
    pub fn send(&self, cmd: DeviceCommand) -> (r: Result<Vec<u8>, String>)
        ensures
            match r {
                Ok(bytes) => spec_send(self.is_open(), cmd) == Ok::<Seq<u8>, Seq<char>>(bytes@),
                Err(msg) => spec_send(self.is_open(), cmd) == Err::<Seq<u8>, Seq<char>>(msg@),
            },
    {
        if self.open {
            Ok(cmd.frame())
        } else {
            Err("Port non initialisé".to_owned())
        }
    }

    /// Answers a vibration request for body part `data`: the frame
    /// `[8, data]`, or the refusal when no port is open.
    pub fn send_vibration(&self, data: u8) -> (r: Result<Vec<u8>, String>)
        ensures
            match r {
                Ok(bytes) => spec_send(self.is_open(), DeviceCommand::Vibrate { data }) == Ok::<
                    Seq<u8>,
                    Seq<char>,
                >(bytes@),
                Err(msg) => spec_send(self.is_open(), DeviceCommand::Vibrate { data }) == Err::<
                    Seq<u8>,
                    Seq<char>,
                >(msg@),
            },
    {
        self.send(DeviceCommand::Vibrate { data })
    }

    /// Answers a contraction request: the frame `[9, contraction]`, or the
    /// refusal when no port is open. The part index is not sent.
    pub fn send_contraction(&self, contraction: u8, part_index: u8) -> (r: Result<Vec<u8>, String>)
        ensures
            match r {
                Ok(bytes) => spec_send(
                    self.is_open(),
                    DeviceCommand::Contract { contraction, part_index },
                ) == Ok::<Seq<u8>, Seq<char>>(bytes@),
                Err(msg) => spec_send(
                    self.is_open(),
                    DeviceCommand::Contract { contraction, part_index },
                ) == Err::<Seq<u8>, Seq<char>>(msg@),
            },
    {
        self.send(DeviceCommand::Contract { contraction, part_index })
    }
}

/// A frame tells the board which kind of command it carries and its value:
/// two commands have the same frame exactly when they are of the same kind
/// with the same value (a contraction's part index is not part of it).
pub proof fn law_frame_identifies_command(a: DeviceCommand, b: DeviceCommand)
    ensures
        (spec_frame(a) == spec_frame(b)) <==> match (a, b) {
            (DeviceCommand::Vibrate { data: x }, DeviceCommand::Vibrate { data: y }) => x == y,
            (
                DeviceCommand::Contract { contraction: x, .. },
                DeviceCommand::Contract { contraction: y, .. },
            ) => x == y,
            _ => false,
        },
{
    if spec_frame(a) == spec_frame(b) {
        assert(spec_frame(a)[0] == spec_frame(b)[0]);
        assert(spec_frame(a)[1] == spec_frame(b)[1]);
    }
}

/// Whether a link that starts with `open` holds a port after the attempts to
/// open one whose outcomes are `attempts`, each recorded by `init_serial`.
pub open spec fn open_after(open: bool, attempts: Seq<bool>) -> bool
    decreases attempts.len(),
{
    if attempts.len() == 0 {
        open
    } else {
        open_after(open, attempts.drop_last()) || attempts.last()
    }
}

/// A new link answers commands with their frames exactly when one of the
/// attempts to open a port so far has succeeded; before that, and after
/// failed attempts only, every command is refused with the same message.
pub proof fn law_link_serves_after_first_success(attempts: Seq<bool>, cmd: DeviceCommand)
    ensures
        open_after(false, attempts) <==> attempts.contains(true),
        spec_send(open_after(false, attempts), cmd) == (if attempts.contains(true) {
            Ok::<Seq<u8>, Seq<char>>(spec_frame(cmd))
        } else {
            Err::<Seq<u8>, Seq<char>>(not_initialized_message())
        }),
    decreases attempts.len(),
{
    if attempts.len() > 0 {
        let front = attempts.drop_last();
        law_link_serves_after_first_success(front, cmd);
        if front.contains(true) {
            let i = choose|i: int| 0 <= i < front.len() && front[i] == true;
            assert(attempts[i] == true);
        }
        if attempts.contains(true) && !attempts.last() {
            let i = choose|i: int| 0 <= i < attempts.len() && attempts[i] == true;
            assert(front[i] == true);
        }
        if attempts.last() {
            assert(attempts[attempts.len() - 1] == true);
        }
    }
}

/// A vibration frame is the byte 8 followed by the part number; a
/// contraction frame is the byte 9 followed by the contraction.
pub proof fn law_frame_bytes(data: u8, contraction: u8, part_index: u8)
    ensures
        spec_frame(DeviceCommand::Vibrate { data }) == seq![8u8, data],
        spec_frame(DeviceCommand::Contract { contraction, part_index }) == seq![9u8, contraction],
{
}

} // verus!
