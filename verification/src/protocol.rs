//! Wire protocol for the HID keyboard link: fixed 33-byte frames carrying one
//! of two commands, with an exact encode/decode pair.
//!
//! Frame layout: byte 0 is `0x00`, bytes 1..4 are `b"kbm"`, byte 4 is the
//! command discriminant, the payload follows, and the rest of the page is
//! zero-padded. On incoming frames the leading byte is treated as padding and
//! ignored; only bytes 1..4 are validated against the header. With that
//! convention `to_command` is an exact inverse of `prepare_command`.

use vstd::prelude::*;
use vstd::slice::slice_subrange;
use vstd::string::StringExecFns;

verus! {

/// Size in bytes of one HID report page; every frame fills one page exactly.
pub const PAGE_SIZE: usize = 33;

/// Length of the fixed frame header `[0x00, 0x6b, 0x62, 0x6d]` (0, 'k', 'b', 'm').
pub const HEADER_LEN: usize = 4;

/// Notification token passed from the audio callback thread to the writer
/// thread: a fresh measurement is ready to be sent.
pub enum ThreadCommand {
    ProcessorComplete,
}

/// The two domain messages of the protocol.
#[derive(Clone, Copy, Debug, PartialEq, Eq, Structural)]
pub enum Command {
    Handshake { status: u8 },
    RMS { left: u8, right: u8 },
}

/// Everything that can go wrong while reading a frame back into a command.
#[derive(Clone, Copy, Debug, PartialEq, Eq, Structural)]
pub enum CommandParseError {
    /// The discriminant byte is missing.
    CommandByteError,
    /// A handshake frame ends before its status byte.
    HandshakeStatusError,
    /// An RMS frame ends before the value byte of the given channel (0 left, 1 right).
    RMSValueError(u8),
    /// The discriminant byte names no known command.
    UndefinedCommand(u8),
    /// The frame is too short to hold a header, or bytes 1..4 are not `b"kbm"`.
    CorruptedHeader,
}

/// The fixed frame header.
pub open spec fn spec_header() -> Seq<u8> {
    seq![0u8, 0x6bu8, 0x62u8, 0x6du8]
}

/// Wire discriminant of a command: 0x01 for Handshake, 0x02 for RMS.
pub open spec fn spec_code(c: Command) -> u8 {
    match c {
        Command::Handshake { .. } => 0x01,
        Command::RMS { .. } => 0x02,
    }
}

/// Command section of a frame: discriminant followed by the payload bytes.
pub open spec fn spec_command_data(c: Command) -> Seq<u8> {
    match c {
        Command::Handshake { status } => seq![0x01u8, status],
        Command::RMS { left, right } => seq![0x02u8, left, right],
    }
}

/// The full page for a command: header, command section, zero padding.
pub open spec fn spec_frame(c: Command) -> Seq<u8> {
    spec_header() + spec_command_data(c) + Seq::new(
        (PAGE_SIZE - HEADER_LEN - spec_command_data(c).len()) as nat,
        |i: int| 0u8,
    )
}

/// Parse the command section of a frame: the bytes after the header.
pub open spec fn spec_parse_command(data: Seq<u8>) -> Result<Command, CommandParseError> {
    if data.len() == 0 {
        Err(CommandParseError::CommandByteError)
    } else if data[0] == 0x01 {
        if data.len() < 2 {
            Err(CommandParseError::HandshakeStatusError)
        } else {
            Ok(Command::Handshake { status: data[1] })
        }
    } else if data[0] == 0x02 {
        if data.len() < 2 {
            Err(CommandParseError::RMSValueError(0))
        } else if data.len() < 3 {
            Err(CommandParseError::RMSValueError(1))
        } else {
            Ok(Command::RMS { left: data[1], right: data[2] })
        }
    } else {
        Err(CommandParseError::UndefinedCommand(data[0]))
    }
}

/// An incoming frame holds a full header whose bytes 1..4 read `b"kbm"`;
/// its leading byte is padding and is not inspected.
pub open spec fn spec_header_ok(data: Seq<u8>) -> bool {
    data.len() >= HEADER_LEN && data[1] == 0x6bu8 && data[2] == 0x62u8 && data[3] == 0x6du8
}

/// Decode a received frame: validate the header, then parse the command
/// section that follows it.
pub open spec fn spec_decode(data: Seq<u8>) -> Result<Command, CommandParseError> {
    if spec_header_ok(data) {
        spec_parse_command(data.skip(HEADER_LEN as int))
    } else {
        Err(CommandParseError::CorruptedHeader)
    }
}

/// The decimal digit `d` as a character, for `0 <= d <= 9`.
pub open spec fn spec_digit_char(d: int) -> char {
    if d == 0 {
        '0'
    } else if d == 1 {
        '1'
    } else if d == 2 {
        '2'
    } else if d == 3 {
        '3'
    } else if d == 4 {
        '4'
    } else if d == 5 {
        '5'
    } else if d == 6 {
        '6'
    } else if d == 7 {
        '7'
    } else if d == 8 {
        '8'
    } else {
        '9'
    }
}

/// The decimal rendering of a byte, without leading zeros.
pub open spec fn spec_u8_chars(n: u8) -> Seq<char> {
    if n < 10 {
        seq![spec_digit_char(n as int)]
    } else if n < 100 {
        seq![spec_digit_char(n as int / 10), spec_digit_char(n as int % 10)]
    } else {
        seq![
            spec_digit_char(n as int / 100),
            spec_digit_char((n as int / 10) % 10),
            spec_digit_char(n as int % 10),
        ]
    }
}

/// The description `message` returns for each error.
pub open spec fn spec_message(e: CommandParseError) -> Seq<char> {
    match e {
        CommandParseError::CommandByteError => "Cannot get command byte"@,
        CommandParseError::HandshakeStatusError => "Cannot get handshake status"@,
        CommandParseError::RMSValueError(channel) => "Cannot get rms value byte for "@
            + spec_u8_chars(channel) + " channel"@,
        CommandParseError::UndefinedCommand(byte) => "Undefined command with byte "@
            + spec_u8_chars(byte),
        CommandParseError::CorruptedHeader => "Corrupted header"@,
    }
}

/// The one-character string for a decimal digit.
fn digit_str(d: u8) -> (s: &'static str)
    requires
        d < 10,
    ensures
        s@ == seq![spec_digit_char(d as int)],
{
    if d == 0 {
        proof {
            reveal_strlit("0");
        }
        "0"
    } else if d == 1 {
        proof {
            reveal_strlit("1");
        }
        "1"
    } else if d == 2 {
        proof {
            reveal_strlit("2");
        }
        "2"
    } else if d == 3 {
        proof {
            reveal_strlit("3");
        }
        "3"
    } else if d == 4 {
        proof {
            reveal_strlit("4");
        }
        "4"
    } else if d == 5 {
        proof {
            reveal_strlit("5");
        }
        "5"
    } else if d == 6 {
        proof {
            reveal_strlit("6");
        }
        "6"
    } else if d == 7 {
        proof {
            reveal_strlit("7");
        }
        "7"
    } else if d == 8 {
        proof {
            reveal_strlit("8");
        }
        "8"
    } else {
        proof {
            reveal_strlit("9");
        }
        "9"
    }
}

/// Render a byte in decimal, without leading zeros.
fn u8_to_string(n: u8) -> (s: String)
    ensures
        s@ == spec_u8_chars(n),
{
    if n < 10 {
        String::from_str(digit_str(n))
    } else if n < 100 {
        let mut s = String::from_str(digit_str(n / 10));
        s.append(digit_str(n % 10));
        s
    } else {
        let mut s = String::from_str(digit_str(n / 100));
        s.append(digit_str((n / 10) % 10));
        s.append(digit_str(n % 10));
        s
    }
}

impl CommandParseError {
    /// A human-readable description of the error.
    pub fn message(&self) -> (s: String)
        ensures
            s@ == spec_message(*self),
    {
        match *self {
            CommandParseError::CommandByteError => String::from_str("Cannot get command byte"),
            CommandParseError::HandshakeStatusError => String::from_str(
                "Cannot get handshake status",
            ),
            CommandParseError::RMSValueError(channel) => {
                let mut s = String::from_str("Cannot get rms value byte for ");
                let num = u8_to_string(channel);
                s.append(num.as_str());
                s.append(" channel");
                s
            },
            CommandParseError::UndefinedCommand(byte) => {
                let mut s = String::from_str("Undefined command with byte ");
                let num = u8_to_string(byte);
                s.append(num.as_str());
                s
            },
            CommandParseError::CorruptedHeader => String::from_str("Corrupted header"),
        }
    }
}

impl Command {
    /// Wire discriminant of this command.
    pub fn code(&self) -> (r: u8)
        ensures
            r == spec_code(*self),
    {
        match *self {
            Command::Handshake { .. } => 0x01,
            Command::RMS { .. } => 0x02,
        }
    }

    /// Serialize the command section of a frame: the discriminant byte
    /// followed by the payload bytes.
    pub fn to_data(&self) -> (r: Vec<u8>)
        ensures
            r@ == spec_command_data(*self),
    {
        let r = match *self {
            Command::Handshake { status } => vec![self.code(), status],
            Command::RMS { left, right } => vec![self.code(), left, right],
        };
        proof {
            assert(r@ =~= spec_command_data(*self));
        }
        r
    }

    /// Parse a command section (the bytes of a frame after its header).
    /// Returns the command, or says which byte was missing or unknown.
    pub fn try_from(value: &[u8]) -> (r: Result<Command, CommandParseError>)
        ensures
            r == spec_parse_command(value@),
    {
        let command_index: u8 = match value.first() {
            Some(b) => *b,
            None => {
                return Err(CommandParseError::CommandByteError);
            },
        };
        if command_index == 0x01 {
            match value.get(1) {
                Some(status) => Ok(Command::Handshake { status: *status }),
                None => Err(CommandParseError::HandshakeStatusError),
            }
        } else if command_index == 0x02 {
            let left: u8 = match value.get(1) {
                Some(b) => *b,
                None => {
                    return Err(CommandParseError::RMSValueError(0));
                },
            };
            let right: u8 = match value.get(2) {
                Some(b) => *b,
                None => {
                    return Err(CommandParseError::RMSValueError(1));
                },
            };
            Ok(Command::RMS { left, right })
        } else {
            Err(CommandParseError::UndefinedCommand(command_index))
        }
    }
}

/// Stateless codec between commands and HID pages.
pub struct Protocol {}

impl Protocol {
    pub fn new() -> (r: Protocol)
        ensures
            r == (Protocol {  }),
    {
        Self {  }
    }

    /// The fixed frame header.
    pub fn header(&self) -> (r: [u8; 4])
        ensures
            r@ == spec_header(),
    {
        let r: [u8; 4] = [0, 0x6bu8, 0x62u8, 0x6du8];
        proof {
            assert(r@ =~= spec_header());
        }
        r
    }

    /// Encode a command as one full page: header, command section, zero
    /// padding. Total: every command yields a frame.
    pub fn prepare_command(&self, command: &Command) -> (frame: [u8; PAGE_SIZE])
        ensures
            frame@ == spec_frame(*command),
            frame@.len() == PAGE_SIZE,
    {
        let mut frame: [u8; PAGE_SIZE] = [0; PAGE_SIZE];
        let header = self.header();
        let mut i: usize = 0;
        while i < HEADER_LEN
            invariant
                0 <= i <= HEADER_LEN,
                header@ == spec_header(),
                frame@.len() == PAGE_SIZE,
                forall|j: int| 0 <= j < i ==> frame@[j] == spec_header()[j],
                forall|j: int| i <= j < PAGE_SIZE ==> frame@[j] == 0u8,
            decreases HEADER_LEN - i,
        {
            frame[i] = header[i];
            i += 1;
        }
        let command_data = command.to_data();
        assert(command_data@.len() <= 3);
        let mut k: usize = 0;
        while k < command_data.len()
            invariant
                0 <= k <= command_data@.len(),
                command_data@ == spec_command_data(*command),
                command_data@.len() <= 3,
                frame@.len() == PAGE_SIZE,
                forall|j: int| 0 <= j < HEADER_LEN ==> frame@[j] == spec_header()[j],
                forall|j: int| 0 <= j < k ==> frame@[HEADER_LEN + j] == command_data@[j],
                forall|j: int| HEADER_LEN + k <= j < PAGE_SIZE ==> frame@[j] == 0u8,
            decreases command_data@.len() - k,
        {
            frame[HEADER_LEN + k] = command_data[k];
            k += 1;
        }
        proof {
            assert(frame@ =~= spec_frame(*command));
        }
        frame
    }

    /// Decode a received frame. The leading byte is ignored as padding;
    /// bytes 1..4 must read `b"kbm"`, and the command section follows.
    /// Returns `Ok` exactly on frames whose header is intact and whose
    /// command section is complete and known; each malformed shape maps to
    /// its own error, and no input panics.
    pub fn to_command(&self, data: &[u8]) -> (r: Result<Command, CommandParseError>)
        ensures
            r == spec_decode(data@),
    {
        if data.len() < HEADER_LEN {
            return Err(CommandParseError::CorruptedHeader);
        }
        let header = self.header();
        let mut is_header_valid = true;
        let mut i: usize = 1;
        while i < HEADER_LEN
            invariant
                1 <= i <= HEADER_LEN,
                data@.len() >= HEADER_LEN,
                header@ == spec_header(),
                is_header_valid <==> (forall|j: int| 1 <= j < i ==> data@[j] == spec_header()[j]),
            decreases HEADER_LEN - i,
        {
            if data[i] != header[i] {
                is_header_valid = false;
            }
            i += 1;
        }
        if !is_header_valid {
            return Err(CommandParseError::CorruptedHeader);
        }
        Command::try_from(slice_subrange(data, HEADER_LEN, data.len()))
    }
}

impl Default for Protocol {
    fn default() -> (r: Self)
        ensures
            r == (Protocol {  }),
    {
        Self::new()
    }
}

/// Law: the codec round-trips. Decoding the frame that encodes a command
/// yields that command back, for every command value.
pub proof fn lemma_round_trip(c: Command)
    ensures
        spec_decode(spec_frame(c)) == Ok::<Command, CommandParseError>(c),
{
    let frame = spec_frame(c);
    assert(spec_header_ok(frame));
    assert(frame.skip(HEADER_LEN as int) =~= spec_command_data(c) + Seq::new(
        (PAGE_SIZE - HEADER_LEN - spec_command_data(c).len()) as nat,
        |i: int| 0u8,
    ));
}

/// Law: a frame long enough to hold a header, any of whose bytes 1..4
/// differs from `b"kbm"`, decodes to `CorruptedHeader` — whatever the rest
/// of the frame holds.
pub proof fn lemma_decode_corrupted_header(data: Seq<u8>)
    requires
        data.len() >= HEADER_LEN,
        data[1] != 0x6bu8 || data[2] != 0x62u8 || data[3] != 0x6du8,
    ensures
        spec_decode(data) == Err::<Command, CommandParseError>(CommandParseError::CorruptedHeader),
{
}

/// Law: a frame truncated within or just past its header decodes to an
/// error, never a command: to `CorruptedHeader` while the header is
/// incomplete, and to `CommandByteError` once the header is whole but the
/// discriminant byte is missing.
pub proof fn lemma_decode_truncated(c: Command, n: int)
    requires
        0 <= n <= HEADER_LEN,
    ensures
        spec_decode(spec_frame(c).take(n)) == Err::<Command, CommandParseError>(
            if n < HEADER_LEN {
                CommandParseError::CorruptedHeader
            } else {
                CommandParseError::CommandByteError
            },
        ),
{
    let cut = spec_frame(c).take(n);
    if n < HEADER_LEN {
        assert(!spec_header_ok(cut));
    } else {
        assert(spec_header_ok(cut));
        assert(cut.skip(HEADER_LEN as int) =~= Seq::<u8>::empty());
    }
}

} // verus!
