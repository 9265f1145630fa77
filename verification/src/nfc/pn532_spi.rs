//! PN532 over SPI: frames, bit order and the replies of the chip.
use vstd::prelude::*;
use crate::bytes::{append_bytes, byte_sum, copy_range, repeat_byte, lemma_byte_sum_step};
use crate::nfc::{CardType, WriteSecMode};

verus! {

/// Bit `i` (0 = least significant) of `x`.
pub open spec fn bit(x: u8, i: u8) -> u8 {
    (x >> i) & 1
}

/// `r` holds the bits of `x` in the opposite order: bit `i` of `r` is bit `7 - i` of `x`.
pub open spec fn is_bit_reversal(x: u8, r: u8) -> bool {
    forall|i: u8| i < 8 ==> #[trigger] bit(r, i) == bit(x, (7 - i) as u8)
}

/// The byte `x` with its bits in the opposite order.
pub open spec fn rev8(x: u8) -> u8 {
    ((x & 0x01) << 7) | ((x & 0x02) << 5) | ((x & 0x04) << 3) | ((x & 0x08) << 1) | ((x & 0x10)
        >> 1) | ((x & 0x20) >> 3) | ((x & 0x40) >> 5) | ((x & 0x80) >> 7)
}

/// `rev8` puts bit `7 - i` of its argument at bit `i`.
pub proof fn lemma_rev8_is_bit_reversal(x: u8)
    ensures
        is_bit_reversal(x, rev8(x)),
{
    let r = rev8(x);
    assert(
        (r >> 0u8) & 1 == (x >> 7u8) & 1 && (r >> 1u8) & 1 == (x >> 6u8) & 1
        && (r >> 2u8) & 1 == (x >> 5u8) & 1 && (r >> 3u8) & 1 == (x >> 4u8) & 1
        && (r >> 4u8) & 1 == (x >> 3u8) & 1 && (r >> 5u8) & 1 == (x >> 2u8) & 1
        && (r >> 6u8) & 1 == (x >> 1u8) & 1 && (r >> 7u8) & 1 == (x >> 0u8) & 1
    ) by (bit_vector)
        requires
            r == ((x & 0x01) << 7) | ((x & 0x02) << 5) | ((x & 0x04) << 3) | ((x & 0x08) << 1)
                | ((x & 0x10) >> 1) | ((x & 0x20) >> 3) | ((x & 0x40) >> 5) | ((x & 0x80) >> 7),
    ;
    assert forall|i: u8| i < 8 implies #[trigger] bit(r, i) == bit(x, (7 - i) as u8) by {
        if i == 0 {} else if i == 1 {} else if i == 2 {} else if i == 3 {}
        else if i == 4 {} else if i == 5 {} else if i == 6 {} else {}
    }
}

/// Reversing the bits of a byte twice gives the byte back.
pub proof fn lemma_rev8_involutive(x: u8)
    ensures
        rev8(rev8(x)) == x,
{
    let y = rev8(x);
    assert(rev8(y) == x) by (bit_vector)
        requires
            y == ((x & 0x01) << 7) | ((x & 0x02) << 5) | ((x & 0x04) << 3) | ((x & 0x08) << 1)
                | ((x & 0x10) >> 1) | ((x & 0x20) >> 3) | ((x & 0x40) >> 5) | ((x & 0x80) >> 7),
    ;
}

/// The PN532 talks LSB first on SPI: reverses the bit order of one byte.
pub fn reverse_byte(b: u8) -> (r: u8)
    ensures
        r == rev8(b),
{
    ((b & 0x01) << 7) | ((b & 0x02) << 5) | ((b & 0x04) << 3) | ((b & 0x08) << 1) | ((b & 0x10)
        >> 1) | ((b & 0x20) >> 3) | ((b & 0x40) >> 5) | ((b & 0x80) >> 7)
}

/// Every byte of `s` with its bits reversed.
pub open spec fn rev_bytes(s: Seq<u8>) -> Seq<u8> {
    s.map_values(|b: u8| rev8(b))
}

/// Reversing every byte of a buffer twice gives it back.
pub proof fn lemma_rev_bytes_involutive(s: Seq<u8>)
    ensures
        rev_bytes(rev_bytes(s)) == s,
{
    assert forall|i: int| 0 <= i < s.len() implies rev_bytes(rev_bytes(s))[i] == s[i] by {
        lemma_rev8_involutive(s[i]);
    }
    assert(rev_bytes(rev_bytes(s)) =~= s);
}

/// Errors of the PN532 protocol.
#[derive(Debug, Clone, Copy, PartialEq, Eq, Structural)]
pub enum Pn532Error {
    /// A buffer was empty or of a length the frame cannot carry.
    InvalidBufferLength,
    /// The status read said no frame is ready; the two status bytes read.
    NoData(u8, u8),
    /// The frame is not a normal information frame.
    FrameHasNoData,
    /// The frame read after a command was not an acknowledgement.
    NotAnAck,
    /// The reply is to another command than the one sent.
    InvalidResponseCode,
    /// The reader found no card in the field.
    NoTargetDetected,
    /// The card answered with an error status.
    Status(Pn532Status),
}

/// The commands of the SPI link layer, sent before each transfer.
#[derive(Debug, Clone, Copy, PartialEq, Eq, Structural)]
pub enum SpiCommand {
    ReadStatus,
    ReadData,
    WriteData,
}

impl SpiCommand {
    /// The bytes that open an SPI transfer with the PN532, by the PN532 manual, no two alike.
    pub proof fn lemma_code_table(self, other: SpiCommand)
        ensures
            self.code() == other.code() ==> self == other,
            SpiCommand::ReadStatus.code() == 0x02,
            SpiCommand::ReadData.code() == 0x03,
            SpiCommand::WriteData.code() == 0x01,
    {
    }

    pub open spec fn code(self) -> u8 {
        match self {
            SpiCommand::ReadStatus => 0x02,
            SpiCommand::ReadData => 0x03,
            SpiCommand::WriteData => 0x01,
        }
    }

    pub open spec fn spec_name(self) -> Seq<char> {
        match self {
            SpiCommand::ReadStatus => "ReadStatus"@,
            SpiCommand::ReadData => "ReadData"@,
            SpiCommand::WriteData => "WriteData"@,
        }
    }

    pub fn name(&self) -> (s: &'static str)
        ensures
            s@ == self.spec_name(),
    {
        match self {
            SpiCommand::ReadStatus => "ReadStatus",
            SpiCommand::ReadData => "ReadData",
            SpiCommand::WriteData => "WriteData",
        }
    }

    pub fn value(&self) -> (v: u8)
        ensures
            v == self.code(),
    {
        match self {
            SpiCommand::ReadStatus => 0x02,
            SpiCommand::ReadData => 0x03,
            SpiCommand::WriteData => 0x01,
        }
    }
}

/// Who sent a frame: the host (TFI 0xD4) or the PN532 (TFI 0xD5).
#[derive(Debug, Clone, Copy, PartialEq, Eq, Structural)]
pub enum FrameDirection {
    FromHost,
    FromRemote,
}

impl FrameDirection {
    /// The frame identifiers of the PN532: 0xD4 from the host, 0xD5 from the PN532.
    pub proof fn lemma_code_table(self, other: FrameDirection)
        ensures
            self.code() == other.code() ==> self == other,
            FrameDirection::FromHost.code() == 0xd4,
            FrameDirection::FromRemote.code() == 0xd5,
    {
    }

    pub open spec fn code(self) -> u8 {
        match self {
            FrameDirection::FromHost => 0xd4,
            FrameDirection::FromRemote => 0xd5,
        }
    }

    pub open spec fn spec_name(self) -> Seq<char> {
        match self {
            FrameDirection::FromHost => "FromHost"@,
            FrameDirection::FromRemote => "FromRemote"@,
        }
    }

    pub fn name(&self) -> (s: &'static str)
        ensures
            s@ == self.spec_name(),
    {
        match self {
            FrameDirection::FromHost => "FromHost",
            FrameDirection::FromRemote => "FromRemote",
        }
    }

    pub fn value(&self) -> (v: u8)
        ensures
            v == self.code(),
    {
        match self {
            FrameDirection::FromHost => 0xd4,
            FrameDirection::FromRemote => 0xd5,
        }
    }
}

/// The kinds of frames the PN532 sends.
#[derive(Debug, Clone, Copy, PartialEq, Eq, Structural)]
pub enum FrameType {
    Normal,
    Extended,
    Ack,
    NAck,
    Error,
    Unknown,
}

impl FrameType {
    /// The codes of the PN532 frame kinds, no two alike.
    pub proof fn lemma_code_table(self, other: FrameType)
        ensures
            self.code() == other.code() ==> self == other,
            FrameType::Normal.code() == 0x01,
            FrameType::Extended.code() == 0x02,
            FrameType::Ack.code() == 0x03,
            FrameType::NAck.code() == 0x04,
            FrameType::Error.code() == 0x05,
            FrameType::Unknown.code() == 0xff,
    {
    }

    pub open spec fn code(self) -> u8 {
        match self {
            FrameType::Normal => 0x01,
            FrameType::Extended => 0x02,
            FrameType::Ack => 0x03,
            FrameType::NAck => 0x04,
            FrameType::Error => 0x05,
            FrameType::Unknown => 0xff,
        }
    }

    pub open spec fn spec_name(self) -> Seq<char> {
        match self {
            FrameType::Normal => "Normal"@,
            FrameType::Extended => "Extended"@,
            FrameType::Ack => "Ack"@,
            FrameType::NAck => "NAck"@,
            FrameType::Error => "Error"@,
            FrameType::Unknown => "Unknown"@,
        }
    }

    pub fn name(&self) -> (s: &'static str)
        ensures
            s@ == self.spec_name(),
    {
        match self {
            FrameType::Normal => "Normal",
            FrameType::Extended => "Extended",
            FrameType::Ack => "Ack",
            FrameType::NAck => "NAck",
            FrameType::Error => "Error",
            FrameType::Unknown => "Unknown",
        }
    }

    pub fn value(&self) -> (v: u8)
        ensures
            v == self.code(),
    {
        match self {
            FrameType::Normal => 0x01,
            FrameType::Extended => 0x02,
            FrameType::Ack => 0x03,
            FrameType::NAck => 0x04,
            FrameType::Error => 0x05,
            FrameType::Unknown => 0xff,
        }
    }

    pub fn is_ack(&self) -> (r: bool)
        ensures
            r == (*self == FrameType::Ack),
    {
        match self {
            FrameType::Ack => true,
            _ => false,
        }
    }

    pub fn is_error(&self) -> (r: bool)
        ensures
            r == (*self == FrameType::Error),
    {
        match self {
            FrameType::Error => true,
            _ => false,
        }
    }
}

/// The commands of the PN532.
#[derive(Debug, Clone, Copy, PartialEq, Eq, Structural)]
pub enum Command {
    Diagnose,
    GetFirmwareVersion,
    GetGeneralStatus,
    ReadRegister,
    WriteRegister,
    ReadGPIO,
    WriteGPIO,
    SetSerialBaudRate,
    SetParameters,
    SAMConfiguration,
    PowerDown,
    RFConfiguration,
    RFRegulationTest,
    InJumpForDEP,
    InJumpForPSL,
    InListPassiveTarget,
    InATR,
    InPSL,
    InDataExchange,
    InCommunicateThru,
    InDeselect,
    InRelease,
    InSelect,
    InAutoPoll,
    TgInitAsTarget,
    TgSetGeneralBytes,
    TgGetData,
    TgSetData,
    TgSetMetaData,
    TgGetInitiatorCommand,
    TgResponseToInitiator,
    TgGetTargetStatus,
}

impl Command {
    /// The command codes of the PN532 manual, no two alike.
    pub proof fn lemma_code_table(self, other: Command)
        ensures
            self.code() == other.code() ==> self == other,
            Command::Diagnose.code() == 0x00,
            Command::GetFirmwareVersion.code() == 0x02,
            Command::GetGeneralStatus.code() == 0x04,
            Command::ReadRegister.code() == 0x06,
            Command::WriteRegister.code() == 0x08,
            Command::ReadGPIO.code() == 0x0C,
            Command::WriteGPIO.code() == 0x0E,
            Command::SetSerialBaudRate.code() == 0x10,
            Command::SetParameters.code() == 0x12,
            Command::SAMConfiguration.code() == 0x14,
            Command::PowerDown.code() == 0x16,
            Command::RFConfiguration.code() == 0x32,
            Command::RFRegulationTest.code() == 0x58,
            Command::InJumpForDEP.code() == 0x56,
            Command::InJumpForPSL.code() == 0x46,
            Command::InListPassiveTarget.code() == 0x4A,
            Command::InATR.code() == 0x50,
            Command::InPSL.code() == 0x4E,
            Command::InDataExchange.code() == 0x40,
            Command::InCommunicateThru.code() == 0x42,
            Command::InDeselect.code() == 0x44,
            Command::InRelease.code() == 0x52,
            Command::InSelect.code() == 0x54,
            Command::InAutoPoll.code() == 0x60,
            Command::TgInitAsTarget.code() == 0x8C,
            Command::TgSetGeneralBytes.code() == 0x92,
            Command::TgGetData.code() == 0x86,
            Command::TgSetData.code() == 0x8E,
            Command::TgSetMetaData.code() == 0x94,
            Command::TgGetInitiatorCommand.code() == 0x88,
            Command::TgResponseToInitiator.code() == 0x90,
            Command::TgGetTargetStatus.code() == 0x8A,
    {
    }

    pub open spec fn code(self) -> u8 {
        match self {
            Command::Diagnose => 0x00,
            Command::GetFirmwareVersion => 0x02,
            Command::GetGeneralStatus => 0x04,
            Command::ReadRegister => 0x06,
            Command::WriteRegister => 0x08,
            Command::ReadGPIO => 0x0C,
            Command::WriteGPIO => 0x0E,
            Command::SetSerialBaudRate => 0x10,
            Command::SetParameters => 0x12,
            Command::SAMConfiguration => 0x14,
            Command::PowerDown => 0x16,
            Command::RFConfiguration => 0x32,
            Command::RFRegulationTest => 0x58,
            Command::InJumpForDEP => 0x56,
            Command::InJumpForPSL => 0x46,
            Command::InListPassiveTarget => 0x4A,
            Command::InATR => 0x50,
            Command::InPSL => 0x4E,
            Command::InDataExchange => 0x40,
            Command::InCommunicateThru => 0x42,
            Command::InDeselect => 0x44,
            Command::InRelease => 0x52,
            Command::InSelect => 0x54,
            Command::InAutoPoll => 0x60,
            Command::TgInitAsTarget => 0x8C,
            Command::TgSetGeneralBytes => 0x92,
            Command::TgGetData => 0x86,
            Command::TgSetData => 0x8E,
            Command::TgSetMetaData => 0x94,
            Command::TgGetInitiatorCommand => 0x88,
            Command::TgResponseToInitiator => 0x90,
            Command::TgGetTargetStatus => 0x8A,
        }
    }

    pub open spec fn spec_name(self) -> Seq<char> {
        match self {
            Command::Diagnose => "Diagnose"@,
            Command::GetFirmwareVersion => "GetFirmwareVersion"@,
            Command::GetGeneralStatus => "GetGeneralStatus"@,
            Command::ReadRegister => "ReadRegister"@,
            Command::WriteRegister => "WriteRegister"@,
            Command::ReadGPIO => "ReadGPIO"@,
            Command::WriteGPIO => "WriteGPIO"@,
            Command::SetSerialBaudRate => "SetSerialBaudRate"@,
            Command::SetParameters => "SetParameters"@,
            Command::SAMConfiguration => "SAMConfiguration"@,
            Command::PowerDown => "PowerDown"@,
            Command::RFConfiguration => "RFConfiguration"@,
            Command::RFRegulationTest => "RFRegulationTest"@,
            Command::InJumpForDEP => "InJumpForDEP"@,
            Command::InJumpForPSL => "InJumpForPSL"@,
            Command::InListPassiveTarget => "InListPassiveTarget"@,
            Command::InATR => "InATR"@,
            Command::InPSL => "InPSL"@,
            Command::InDataExchange => "InDataExchange"@,
            Command::InCommunicateThru => "InCommunicateThru"@,
            Command::InDeselect => "InDeselect"@,
            Command::InRelease => "InRelease"@,
            Command::InSelect => "InSelect"@,
            Command::InAutoPoll => "InAutoPoll"@,
            Command::TgInitAsTarget => "TgInitAsTarget"@,
            Command::TgSetGeneralBytes => "TgSetGeneralBytes"@,
            Command::TgGetData => "TgGetData"@,
            Command::TgSetData => "TgSetData"@,
            Command::TgSetMetaData => "TgSetMetaData"@,
            Command::TgGetInitiatorCommand => "TgGetInitiatorCommand"@,
            Command::TgResponseToInitiator => "TgResponseToInitiator"@,
            Command::TgGetTargetStatus => "TgGetTargetStatus"@,
        }
    }

    pub fn name(&self) -> (s: &'static str)
        ensures
            s@ == self.spec_name(),
    {
        match self {
            Command::Diagnose => "Diagnose",
            Command::GetFirmwareVersion => "GetFirmwareVersion",
            Command::GetGeneralStatus => "GetGeneralStatus",
            Command::ReadRegister => "ReadRegister",
            Command::WriteRegister => "WriteRegister",
            Command::ReadGPIO => "ReadGPIO",
            Command::WriteGPIO => "WriteGPIO",
            Command::SetSerialBaudRate => "SetSerialBaudRate",
            Command::SetParameters => "SetParameters",
            Command::SAMConfiguration => "SAMConfiguration",
            Command::PowerDown => "PowerDown",
            Command::RFConfiguration => "RFConfiguration",
            Command::RFRegulationTest => "RFRegulationTest",
            Command::InJumpForDEP => "InJumpForDEP",
            Command::InJumpForPSL => "InJumpForPSL",
            Command::InListPassiveTarget => "InListPassiveTarget",
            Command::InATR => "InATR",
            Command::InPSL => "InPSL",
            Command::InDataExchange => "InDataExchange",
            Command::InCommunicateThru => "InCommunicateThru",
            Command::InDeselect => "InDeselect",
            Command::InRelease => "InRelease",
            Command::InSelect => "InSelect",
            Command::InAutoPoll => "InAutoPoll",
            Command::TgInitAsTarget => "TgInitAsTarget",
            Command::TgSetGeneralBytes => "TgSetGeneralBytes",
            Command::TgGetData => "TgGetData",
            Command::TgSetData => "TgSetData",
            Command::TgSetMetaData => "TgSetMetaData",
            Command::TgGetInitiatorCommand => "TgGetInitiatorCommand",
            Command::TgResponseToInitiator => "TgResponseToInitiator",
            Command::TgGetTargetStatus => "TgGetTargetStatus",
        }
    }

    pub fn value(&self) -> (v: u8)
        ensures
            v == self.code(),
    {
        match self {
            Command::Diagnose => 0x00,
            Command::GetFirmwareVersion => 0x02,
            Command::GetGeneralStatus => 0x04,
            Command::ReadRegister => 0x06,
            Command::WriteRegister => 0x08,
            Command::ReadGPIO => 0x0C,
            Command::WriteGPIO => 0x0E,
            Command::SetSerialBaudRate => 0x10,
            Command::SetParameters => 0x12,
            Command::SAMConfiguration => 0x14,
            Command::PowerDown => 0x16,
            Command::RFConfiguration => 0x32,
            Command::RFRegulationTest => 0x58,
            Command::InJumpForDEP => 0x56,
            Command::InJumpForPSL => 0x46,
            Command::InListPassiveTarget => 0x4A,
            Command::InATR => 0x50,
            Command::InPSL => 0x4E,
            Command::InDataExchange => 0x40,
            Command::InCommunicateThru => 0x42,
            Command::InDeselect => 0x44,
            Command::InRelease => 0x52,
            Command::InSelect => 0x54,
            Command::InAutoPoll => 0x60,
            Command::TgInitAsTarget => 0x8C,
            Command::TgSetGeneralBytes => 0x92,
            Command::TgGetData => 0x86,
            Command::TgSetData => 0x8E,
            Command::TgSetMetaData => 0x94,
            Command::TgGetInitiatorCommand => 0x88,
            Command::TgResponseToInitiator => 0x90,
            Command::TgGetTargetStatus => 0x8A,
        }
    }

    /// The code of the reply to this command: the command code plus one.
    pub fn response(&self) -> (v: u8)
        ensures
            v == self.code() + 1,
    {
        let value = self.value();
        value + 1
    }

    /// Every command code is below 0x95, so its reply code fits in a byte.
    pub proof fn lemma_code_bound(self)
        ensures
            self.code() < 0x95,
    {
    }
}

/// The status codes the PN532 reports for an exchange with a card.
#[derive(Debug, Clone, Copy, PartialEq, Eq, Structural)]
pub enum Pn532Status {
    Success,
    TimedOut,
    Crc,
    Parity,
    Select,
    Framing,
    BitCollision,
    Buffer,
    Overflow,
    NotSwitched,
    RFProtocol,
    Temperature,
    BufferOverflow,
    InvalidParameter,
    InvalidCommand,
    InvalidFormat,
    InvalidAuth,
    UidCheck,
    InvalidDeviceState,
    OperationNotAllowed,
    CommandOutOfContext,
    Released,
    InvalidUid,
    CardDisappeared,
    MismatchInitiator,
    OverCurrent,
    NadMissing,
    GenericError,
}

impl Pn532Status {
    /// The status codes of the PN532 manual (error byte of an InDataExchange reply), no two alike.
    pub proof fn lemma_code_table(self, other: Pn532Status)
        ensures
            self.code() == other.code() ==> self == other,
            Pn532Status::Success.code() == 0x00,
            Pn532Status::TimedOut.code() == 0x01,
            Pn532Status::Crc.code() == 0x02,
            Pn532Status::Parity.code() == 0x03,
            Pn532Status::Select.code() == 0x04,
            Pn532Status::Framing.code() == 0x05,
            Pn532Status::BitCollision.code() == 0x06,
            Pn532Status::Buffer.code() == 0x07,
            Pn532Status::Overflow.code() == 0x09,
            Pn532Status::NotSwitched.code() == 0x0A,
            Pn532Status::RFProtocol.code() == 0x0B,
            Pn532Status::Temperature.code() == 0x0D,
            Pn532Status::BufferOverflow.code() == 0x0E,
            Pn532Status::InvalidParameter.code() == 0x10,
            Pn532Status::InvalidCommand.code() == 0x12,
            Pn532Status::InvalidFormat.code() == 0x13,
            Pn532Status::InvalidAuth.code() == 0x14,
            Pn532Status::UidCheck.code() == 0x23,
            Pn532Status::InvalidDeviceState.code() == 0x25,
            Pn532Status::OperationNotAllowed.code() == 0x26,
            Pn532Status::CommandOutOfContext.code() == 0x27,
            Pn532Status::Released.code() == 0x29,
            Pn532Status::InvalidUid.code() == 0x2A,
            Pn532Status::CardDisappeared.code() == 0x2B,
            Pn532Status::MismatchInitiator.code() == 0x2C,
            Pn532Status::OverCurrent.code() == 0x2D,
            Pn532Status::NadMissing.code() == 0x2E,
            Pn532Status::GenericError.code() == 0x99,
    {
    }

    pub open spec fn code(self) -> u8 {
        match self {
            Pn532Status::Success => 0x00,
            Pn532Status::TimedOut => 0x01,
            Pn532Status::Crc => 0x02,
            Pn532Status::Parity => 0x03,
            Pn532Status::Select => 0x04,
            Pn532Status::Framing => 0x05,
            Pn532Status::BitCollision => 0x06,
            Pn532Status::Buffer => 0x07,
            Pn532Status::Overflow => 0x09,
            Pn532Status::NotSwitched => 0x0A,
            Pn532Status::RFProtocol => 0x0B,
            Pn532Status::Temperature => 0x0D,
            Pn532Status::BufferOverflow => 0x0E,
            Pn532Status::InvalidParameter => 0x10,
            Pn532Status::InvalidCommand => 0x12,
            Pn532Status::InvalidFormat => 0x13,
            Pn532Status::InvalidAuth => 0x14,
            Pn532Status::UidCheck => 0x23,
            Pn532Status::InvalidDeviceState => 0x25,
            Pn532Status::OperationNotAllowed => 0x26,
            Pn532Status::CommandOutOfContext => 0x27,
            Pn532Status::Released => 0x29,
            Pn532Status::InvalidUid => 0x2A,
            Pn532Status::CardDisappeared => 0x2B,
            Pn532Status::MismatchInitiator => 0x2C,
            Pn532Status::OverCurrent => 0x2D,
            Pn532Status::NadMissing => 0x2E,
            Pn532Status::GenericError => 0x99,
        }
    }

    pub open spec fn spec_name(self) -> Seq<char> {
        match self {
            Pn532Status::Success => "Success"@,
            Pn532Status::TimedOut => "TimedOut"@,
            Pn532Status::Crc => "Crc"@,
            Pn532Status::Parity => "Parity"@,
            Pn532Status::Select => "Select"@,
            Pn532Status::Framing => "Framing"@,
            Pn532Status::BitCollision => "BitCollision"@,
            Pn532Status::Buffer => "Buffer"@,
            Pn532Status::Overflow => "Overflow"@,
            Pn532Status::NotSwitched => "NotSwitched"@,
            Pn532Status::RFProtocol => "RFProtocol"@,
            Pn532Status::Temperature => "Temperature"@,
            Pn532Status::BufferOverflow => "BufferOverflow"@,
            Pn532Status::InvalidParameter => "InvalidParameter"@,
            Pn532Status::InvalidCommand => "InvalidCommand"@,
            Pn532Status::InvalidFormat => "InvalidFormat"@,
            Pn532Status::InvalidAuth => "InvalidAuth"@,
            Pn532Status::UidCheck => "UidCheck"@,
            Pn532Status::InvalidDeviceState => "InvalidDeviceState"@,
            Pn532Status::OperationNotAllowed => "OperationNotAllowed"@,
            Pn532Status::CommandOutOfContext => "CommandOutOfContext"@,
            Pn532Status::Released => "Released"@,
            Pn532Status::InvalidUid => "InvalidUid"@,
            Pn532Status::CardDisappeared => "CardDisappeared"@,
            Pn532Status::MismatchInitiator => "MismatchInitiator"@,
            Pn532Status::OverCurrent => "OverCurrent"@,
            Pn532Status::NadMissing => "NadMissing"@,
            Pn532Status::GenericError => "GenericError"@,
        }
    }

    pub fn name(&self) -> (s: &'static str)
        ensures
            s@ == self.spec_name(),
    {
        match self {
            Pn532Status::Success => "Success",
            Pn532Status::TimedOut => "TimedOut",
            Pn532Status::Crc => "Crc",
            Pn532Status::Parity => "Parity",
            Pn532Status::Select => "Select",
            Pn532Status::Framing => "Framing",
            Pn532Status::BitCollision => "BitCollision",
            Pn532Status::Buffer => "Buffer",
            Pn532Status::Overflow => "Overflow",
            Pn532Status::NotSwitched => "NotSwitched",
            Pn532Status::RFProtocol => "RFProtocol",
            Pn532Status::Temperature => "Temperature",
            Pn532Status::BufferOverflow => "BufferOverflow",
            Pn532Status::InvalidParameter => "InvalidParameter",
            Pn532Status::InvalidCommand => "InvalidCommand",
            Pn532Status::InvalidFormat => "InvalidFormat",
            Pn532Status::InvalidAuth => "InvalidAuth",
            Pn532Status::UidCheck => "UidCheck",
            Pn532Status::InvalidDeviceState => "InvalidDeviceState",
            Pn532Status::OperationNotAllowed => "OperationNotAllowed",
            Pn532Status::CommandOutOfContext => "CommandOutOfContext",
            Pn532Status::Released => "Released",
            Pn532Status::InvalidUid => "InvalidUid",
            Pn532Status::CardDisappeared => "CardDisappeared",
            Pn532Status::MismatchInitiator => "MismatchInitiator",
            Pn532Status::OverCurrent => "OverCurrent",
            Pn532Status::NadMissing => "NadMissing",
            Pn532Status::GenericError => "GenericError",
        }
    }

    pub fn value(&self) -> (v: u8)
        ensures
            v == self.code(),
    {
        match self {
            Pn532Status::Success => 0x00,
            Pn532Status::TimedOut => 0x01,
            Pn532Status::Crc => 0x02,
            Pn532Status::Parity => 0x03,
            Pn532Status::Select => 0x04,
            Pn532Status::Framing => 0x05,
            Pn532Status::BitCollision => 0x06,
            Pn532Status::Buffer => 0x07,
            Pn532Status::Overflow => 0x09,
            Pn532Status::NotSwitched => 0x0A,
            Pn532Status::RFProtocol => 0x0B,
            Pn532Status::Temperature => 0x0D,
            Pn532Status::BufferOverflow => 0x0E,
            Pn532Status::InvalidParameter => 0x10,
            Pn532Status::InvalidCommand => 0x12,
            Pn532Status::InvalidFormat => 0x13,
            Pn532Status::InvalidAuth => 0x14,
            Pn532Status::UidCheck => 0x23,
            Pn532Status::InvalidDeviceState => 0x25,
            Pn532Status::OperationNotAllowed => 0x26,
            Pn532Status::CommandOutOfContext => 0x27,
            Pn532Status::Released => 0x29,
            Pn532Status::InvalidUid => 0x2A,
            Pn532Status::CardDisappeared => 0x2B,
            Pn532Status::MismatchInitiator => 0x2C,
            Pn532Status::OverCurrent => 0x2D,
            Pn532Status::NadMissing => 0x2E,
            Pn532Status::GenericError => 0x99,
        }
    }

    /// The status whose code is `t`, if `t` is the code of one; `t` is at
    /// most 0x99, the highest code.
    pub fn from_code(t: u8) -> (r: Option<Pn532Status>)
        requires
            t <= 0x99,
        ensures
            r matches Some(s) ==> s.code() == t,
            r is None ==> !is_status_code(t),
    {
        match t {
            0x00 => Some(Pn532Status::Success),
            0x01 => Some(Pn532Status::TimedOut),
            0x02 => Some(Pn532Status::Crc),
            0x03 => Some(Pn532Status::Parity),
            0x04 => Some(Pn532Status::Select),
            0x05 => Some(Pn532Status::Framing),
            0x06 => Some(Pn532Status::BitCollision),
            0x07 => Some(Pn532Status::Buffer),
            0x09 => Some(Pn532Status::Overflow),
            0x0A => Some(Pn532Status::NotSwitched),
            0x0B => Some(Pn532Status::RFProtocol),
            0x0D => Some(Pn532Status::Temperature),
            0x0E => Some(Pn532Status::BufferOverflow),
            0x10 => Some(Pn532Status::InvalidParameter),
            0x12 => Some(Pn532Status::InvalidCommand),
            0x13 => Some(Pn532Status::InvalidFormat),
            0x14 => Some(Pn532Status::InvalidAuth),
            0x23 => Some(Pn532Status::UidCheck),
            0x25 => Some(Pn532Status::InvalidDeviceState),
            0x26 => Some(Pn532Status::OperationNotAllowed),
            0x27 => Some(Pn532Status::CommandOutOfContext),
            0x29 => Some(Pn532Status::Released),
            0x2A => Some(Pn532Status::InvalidUid),
            0x2B => Some(Pn532Status::CardDisappeared),
            0x2C => Some(Pn532Status::MismatchInitiator),
            0x2D => Some(Pn532Status::OverCurrent),
            0x2E => Some(Pn532Status::NadMissing),
            0x99 => Some(Pn532Status::GenericError),
            _ => None,
        }
    }
}

/// Whether `t` is the code of a PN532 status.
pub open spec fn is_status_code(t: u8) -> bool {
    exists|s: Pn532Status| s.code() == t
}

/// The two sizes of reply the driver reads: an ACK frame or an information frame.
#[derive(Debug, Clone, Copy, PartialEq, Eq, Structural)]
pub enum ResponseSize {
    Ack,
    Frame,
}

impl ResponseSize {
    pub open spec fn spec_name(self) -> Seq<char> {
        match self {
            ResponseSize::Ack => "Ack"@,
            ResponseSize::Frame => "Frame"@,
        }
    }

    /// Bytes to read for a reply carrying `len` bytes of data.
    pub open spec fn spec_size(self, len: nat) -> nat {
        match self {
            ResponseSize::Ack => 0x07 + len,
            ResponseSize::Frame => 0x08 + len,
        }
    }

    pub fn name(&self) -> (s: &'static str)
        ensures
            s@ == self.spec_name(),
    {
        match self {
            ResponseSize::Ack => "Ack",
            ResponseSize::Frame => "Frame",
        }
    }

    pub fn size(&self, len: usize) -> (r: usize)
        requires
            len + 8 <= usize::MAX,
        ensures
            r == self.spec_size(len as nat),
    {
        match self {
            ResponseSize::Ack => 0x07 + len,
            ResponseSize::Frame => 0x08 + len,
        }
    }
}

/// Reverses, in place, the bit order of every byte of `buffer`; an empty
/// buffer is refused.
pub fn reverse_bits(buffer: &mut Vec<u8>) -> (r: Result<bool, Pn532Error>)
    ensures
        old(buffer)@.len() == 0 ==> r == Err::<bool, Pn532Error>(Pn532Error::InvalidBufferLength)
            && final(buffer)@ == old(buffer)@,
        old(buffer)@.len() > 0 ==> r == Ok::<bool, Pn532Error>(true) && final(buffer)@
            == rev_bytes(old(buffer)@),
{
    if buffer.len() == 0 {
        return Err(Pn532Error::InvalidBufferLength);
    }
    let n = buffer.len();
    let mut x: usize = 0;
    while x < n
        invariant
            n == buffer@.len(),
            n == old(buffer)@.len(),
            x <= n,
            forall|k: int| 0 <= k < x ==> #[trigger] buffer@[k] == rev8(old(buffer)@[k]),
            forall|k: int| x <= k < n ==> buffer@[k] == old(buffer)@[k],
        decreases n - x,
    {
        let b = buffer[x];
        let r = reverse_byte(b);
        buffer.set(x, r);
        x = x + 1;
    }
    assert(buffer@ =~= rev_bytes(old(buffer)@));
    Ok(true)
}

/// The length byte of a host frame carrying `n` data bytes: the count of the
/// data plus the direction byte, the count taken modulo 256 as a byte cast does.
pub open spec fn frame_len_byte(n: nat) -> int {
    ((n % 256) + 1) as int
}

/// The byte sum that the data checksum cancels: direction byte plus data.
pub open spec fn frame_data_sum(data: Seq<u8>) -> int {
    ((0xD4 + byte_sum(data)) % 256) as int
}

/// The information frame the host sends with `data`: preamble, start code,
/// length, length checksum, direction, data, data checksum, postamble.
pub open spec fn host_frame(data: Seq<u8>) -> Seq<u8> {
    let len = frame_len_byte(data.len());
    seq![0x00u8, 0x00u8, 0xFFu8, len as u8, (256 - len) as u8, 0xD4u8] + data
        + seq![(256 - frame_data_sum(data)) as u8, 0x00u8]
}

/// Where the host frame encoder is defined: a length byte that does not wrap,
/// and a data sum whose complement does not wrap.
pub open spec fn host_frame_encodable(data: Seq<u8>) -> bool {
    &&& data.len() % 256 != 255
    &&& data.len() % 256 != 254 ==> frame_data_sum(data) != 0
}

/// The kind of a frame read over SPI, whose first byte is the SPI status byte 0x01.
pub open spec fn spi_frame_type(b: Seq<u8>) -> FrameType {
    if b.len() < 5 {
        FrameType::Unknown
    } else if b[0] != 0x01 {
        FrameType::Unknown
    } else if b[4] == 0x00 && b[5] == 0xFF {
        FrameType::Ack
    } else if b[4] == 0xFF && b[5] == 0x00 {
        FrameType::NAck
    } else if b[4] == 0xFF && b[5] == 0xFF {
        FrameType::Extended
    } else if b[4] == 0x01 && b[5] == 0xFF {
        FrameType::Error
    } else {
        FrameType::Normal
    }
}

/// The classification reads byte 5 only where it exists.
pub open spec fn frame_classifiable(b: Seq<u8>) -> bool {
    !(b.len() == 5 && b[0] == 0x01 && (b[4] == 0x00 || b[4] == 0xFF || b[4] == 0x01))
}

/// A normal frame is long enough to hold its header, data checksum and postamble.
pub open spec fn frame_readable(b: Seq<u8>) -> bool {
    &&& frame_classifiable(b)
    &&& spi_frame_type(b) == FrameType::Normal ==> b.len() >= 8
}

/// A PN532 frame as bytes on the wire.
pub struct Frame {
    buffer: Vec<u8>,
}

impl View for Frame {
    type V = Seq<u8>;

    closed spec fn view(&self) -> Seq<u8> {
        self.buffer@
    }
}

impl Frame {
    /// A frame holding exactly the bytes `buffer`.
    pub fn from_bytes(buffer: Vec<u8>) -> (f: Frame)
        ensures
            f@ == buffer@,
    {
        Frame { buffer }
    }

    /// The bytes of the frame.
    pub fn bytes(&self) -> (b: &Vec<u8>)
        ensures
            b@ == self@,
    {
        &self.buffer
    }

    /// Frames `data` for the PN532 (see `host_frame`); refused when the
    /// length byte would be 0xFF.
    pub fn from_vec(data: &Vec<u8>) -> (r: Result<Frame, Pn532Error>)
        requires
            host_frame_encodable(data@),
        ensures
            frame_len_byte(data@.len()) > 0xfe <==> r is Err,
            r matches Err(e) ==> e == Pn532Error::InvalidBufferLength,
            r matches Ok(f) ==> f@ == host_frame(data@),
    {
        let n = data.len();
        let len: u8 = ((n % 256) as u8) + 1;
        if len > 0xfe {
            return Err(Pn532Error::InvalidBufferLength);
        }
        assert(!len <= 254 && !len + 1 == 256 - len) by (bit_vector)
            requires
                1 <= len <= 0xfe,
        ;
        let lcs: u8 = !len + 1;
        let mut dcs: u8 = FrameDirection::FromHost.value();
        let mut i: usize = 0;
        while i < n
            invariant
                n == data@.len(),
                i <= n,
                dcs == (0xD4 + byte_sum(data@.take(i as int))) % 256,
            decreases n - i,
        {
            proof {
                lemma_byte_sum_step(data@, i as int);
            }
            dcs = dcs.wrapping_add(data[i]);
            i = i + 1;
        }
        assert(data@.take(n as int) =~= data@);
        assert(dcs != 0);
        assert(!dcs <= 254 && !dcs + 1 == 256 - dcs) by (bit_vector)
            requires
                1 <= dcs,
        ;
        let dcs_neg: u8 = !dcs + 1;
        let mut b: Vec<u8> = Vec::new();
        b.push(0x00);
        b.push(0x00);
        b.push(0xff);
        b.push(len);
        b.push(lcs);
        b.push(FrameDirection::FromHost.value());
        append_bytes(&mut b, data.as_slice());
        b.push(dcs_neg);
        b.push(0x00);
        assert(b@ =~= host_frame(data@));
        Ok(Frame { buffer: b })
    }

    /// Frames the bytes of a slice (see `from_vec`).
    pub fn from_buffer(data: &[u8]) -> (r: Result<Frame, Pn532Error>)
        requires
            host_frame_encodable(data@),
        ensures
            frame_len_byte(data@.len()) > 0xfe <==> r is Err,
            r matches Err(e) ==> e == Pn532Error::InvalidBufferLength,
            r matches Ok(f) ==> f@ == host_frame(data@),
    {
        let v = copy_range(data, 0, data.len());
        assert(v@ =~= data@);
        Frame::from_vec(&v)
    }

    /// Whether the kind of this frame can be told (see `frame_classifiable`).
    pub fn is_classifiable(&self) -> (r: bool)
        ensures
            r == frame_classifiable(self@),
    {
        !(self.buffer.len() == 5 && self.buffer[0] == 0x01 && (self.buffer[4] == 0x00 || self.buffer[4] == 0xFF
            || self.buffer[4] == 0x01))
    }

    /// Whether the data of this frame can be read (see `frame_readable`).
    pub fn is_readable(&self) -> (r: bool)
        ensures
            r == frame_readable(self@),
    {
        if !self.is_classifiable() {
            return false;
        }
        match self.frame_type() {
            FrameType::Normal => self.buffer.len() >= 8,
            _ => true,
        }
    }

    /// The kind of this frame as read over SPI.
    pub fn frame_type(&self) -> (t: FrameType)
        requires
            frame_classifiable(self@),
        ensures
            t == spi_frame_type(self@),
    {
        if self.buffer.len() < 5 {
            return FrameType::Unknown;
        }
        if self.buffer[0] != 0x01 {
            return FrameType::Unknown;
        }
        if self.buffer[4] == 0x00 && self.buffer[5] == 0xFF {
            return FrameType::Ack;
        } else if self.buffer[4] == 0xFF && self.buffer[5] == 0x00 {
            return FrameType::NAck;
        } else if self.buffer[4] == 0xFF && self.buffer[5] == 0xFF {
            return FrameType::Extended;
        } else if self.buffer[4] == 0x01 && self.buffer[5] == 0xFF {
            return FrameType::Error;
        }
        FrameType::Normal
    }

    /// The bytes between the length checksum and the data checksum of a normal
    /// frame: the direction byte and the data.
    pub fn data(&self) -> (r: Result<Vec<u8>, Pn532Error>)
        requires
            frame_readable(self@),
        ensures
            spi_frame_type(self@) == FrameType::Normal ==> (r matches Ok(d) && d@ == self@.subrange(
                6,
                self@.len() - 2,
            )),
            spi_frame_type(self@) != FrameType::Normal ==> r == Err::<Vec<u8>, Pn532Error>(
                Pn532Error::FrameHasNoData,
            ),
    {
        match self.frame_type() {
            FrameType::Normal => Ok(copy_range(self.buffer.as_slice(), 6, self.buffer.len() - 2)),
            _ => Err(Pn532Error::FrameHasNoData),
        }
    }

    /// The first data byte of a normal frame: the code of the reply.
    pub fn response_byte(&self) -> (r: Result<u8, Pn532Error>)
        requires
            frame_readable(self@),
        ensures
            spi_frame_type(self@) == FrameType::Normal ==> r == Ok::<u8, Pn532Error>(self@[7]),
            spi_frame_type(self@) != FrameType::Normal ==> r == Err::<u8, Pn532Error>(
                Pn532Error::FrameHasNoData,
            ),
    {
        match self.frame_type() {
            FrameType::Normal => Ok(self.buffer[7]),
            _ => Err(Pn532Error::FrameHasNoData),
        }
    }
}

/// The length and data checksums of a host frame cancel their bytes modulo 256.
pub proof fn lemma_host_frame_checksums(data: Seq<u8>)
    requires
        host_frame_encodable(data),
        frame_len_byte(data.len()) <= 0xfe,
    ensures
        ({
            let f = host_frame(data);
            &&& (f[3] + f[4]) % 256 == 0
            &&& (0xD4 + byte_sum(data) + f[f.len() - 2]) % 256 == 0
        }),
{
    let f = host_frame(data);
    assert(f[f.len() - 2] == (256 - frame_data_sum(data)) as u8);
}

/// A host frame read back over SPI (behind the status byte 0x01) is a normal
/// frame whose data is the direction byte followed by the framed bytes, and
/// whose reply code is the first framed byte.
pub proof fn lemma_host_frame_roundtrip(data: Seq<u8>)
    requires
        1 <= data.len() <= 253,
        host_frame_encodable(data),
    ensures
        ({
            let b = seq![0x01u8] + host_frame(data);
            &&& frame_readable(b)
            &&& spi_frame_type(b) == FrameType::Normal
            &&& b.subrange(6, b.len() - 2) == seq![0xD4u8] + data
            &&& b[7] == data[0]
        }),
{
    let b = seq![0x01u8] + host_frame(data);
    assert(b[4] == frame_len_byte(data.len()) as u8);
    assert(b.subrange(6, b.len() - 2) =~= seq![0xD4u8] + data);
}

/// The MIFARE commands a reader sends to a card.
#[derive(Debug, Clone, Copy, PartialEq, Eq, Structural)]
#[allow(non_camel_case_types)]
pub enum PICC {
    REQIDL,
    REQALL,
    ANTICOLL1,
    ANTICOLL2,
    ANTICOLL3,
    AUTH1A,
    AUTH1B,
    READ,
    WRITE,
    DECREMENT,
    INCREMENT,
    RESTORE,
    TRANSFER,
    HALT,
}

impl PICC {
    /// The ISO 14443 / MIFARE card commands, no two alike: REQA/WUPA, anticollision and select at cascade levels 1 (0x93) and 2 (0x95), authentication with key A (0x60) and key B (0x61), read (0x30), write (0xA0), value operations (0xC0 to 0xC2, 0xB0) and halt (0x50).
    pub proof fn lemma_code_table(self, other: PICC)
        ensures
            self.code() == other.code() ==> self == other,
            PICC::REQIDL.code() == 0x26,
            PICC::REQALL.code() == 0x52,
            PICC::ANTICOLL1.code() == 0x93,
            PICC::ANTICOLL2.code() == 0x95,
            PICC::ANTICOLL3.code() == 0x97,
            PICC::AUTH1A.code() == 0x60,
            PICC::AUTH1B.code() == 0x61,
            PICC::READ.code() == 0x30,
            PICC::WRITE.code() == 0xA0,
            PICC::DECREMENT.code() == 0xC0,
            PICC::INCREMENT.code() == 0xC1,
            PICC::RESTORE.code() == 0xC2,
            PICC::TRANSFER.code() == 0xB0,
            PICC::HALT.code() == 0x50,
    {
    }

    pub open spec fn code(self) -> u8 {
        match self {
            PICC::REQIDL => 0x26,
            PICC::REQALL => 0x52,
            PICC::ANTICOLL1 => 0x93,
            PICC::ANTICOLL2 => 0x95,
            PICC::ANTICOLL3 => 0x97,
            PICC::AUTH1A => 0x60,
            PICC::AUTH1B => 0x61,
            PICC::READ => 0x30,
            PICC::WRITE => 0xA0,
            PICC::DECREMENT => 0xC0,
            PICC::INCREMENT => 0xC1,
            PICC::RESTORE => 0xC2,
            PICC::TRANSFER => 0xB0,
            PICC::HALT => 0x50,
        }
    }

    pub fn value(&self) -> (v: u8)
        ensures
            v == self.code(),
    {
        match self {
            PICC::REQIDL => 0x26,
            PICC::REQALL => 0x52,
            PICC::ANTICOLL1 => 0x93,
            PICC::ANTICOLL2 => 0x95,
            PICC::ANTICOLL3 => 0x97,
            PICC::AUTH1A => 0x60,
            PICC::AUTH1B => 0x61,
            PICC::READ => 0x30,
            PICC::WRITE => 0xA0,
            PICC::DECREMENT => 0xC0,
            PICC::INCREMENT => 0xC1,
            PICC::RESTORE => 0xC2,
            PICC::TRANSFER => 0xB0,
            PICC::HALT => 0x50,
        }
    }
}

/// Which key authenticates a MIFARE block: the factory keys or the keys set
/// for this installation.
#[derive(Debug, Clone, Copy, PartialEq, Eq, Structural)]
pub enum MifareAuthKey {
    DefaultKeyA,
    DefaultKeyB,
    CustomKeyA,
    CustomKeyB,
}

/// The factory key A of MIFARE Classic cards.
pub open spec fn default_key_a() -> Seq<u8> {
    seq![0xffu8, 0xff, 0xff, 0xff, 0xff, 0xff]
}

/// The factory key B of MIFARE Classic cards.
pub open spec fn default_key_b() -> Seq<u8> {
    seq![0x00u8, 0x00, 0x00, 0x00, 0x00, 0x00]
}

/// The access bits written in a sector trailer.
pub open spec fn default_access_bits() -> Seq<u8> {
    seq![0xffu8, 0x07, 0x80, 0x00]
}

/// The keys a reader authenticates with, and the access bits it keeps.
pub struct MifareKeys {
    pub key_a: Vec<u8>,
    pub key_b: Vec<u8>,
    pub access_bits: Vec<u8>,
}

impl MifareKeys {
    /// The keys a reader starts with: the factory keys.
    pub fn new() -> (k: MifareKeys)
        ensures
            k.key_a@ == default_key_a(),
            k.key_b@ == default_key_b(),
            k.access_bits@ == seq![0xffu8, 0x07, 0x80, 0x69],
    {
        let k = MifareKeys {
            key_a: vec![0xff, 0xff, 0xff, 0xff, 0xff, 0xff],
            key_b: vec![0x00, 0x00, 0x00, 0x00, 0x00, 0x00],
            access_bits: vec![0xff, 0x07, 0x80, 0x69],
        };
        assert(k.key_a@ =~= default_key_a());
        assert(k.key_b@ =~= default_key_b());
        assert(k.access_bits@ =~= seq![0xffu8, 0x07, 0x80, 0x69]);
        k
    }

    /// Replaces both custom keys.
    pub fn set_auth_keys(&mut self, key_a: &Vec<u8>, key_b: &Vec<u8>) -> (r: Result<(), String>)
        ensures
            r is Ok,
            final(self).key_a@ == key_a@,
            final(self).key_b@ == key_b@,
            final(self).access_bits@ == old(self).access_bits@,
    {
        self.key_a = copy_range(key_a.as_slice(), 0, key_a.len());
        self.key_b = copy_range(key_b.as_slice(), 0, key_b.len());
        assert(self.key_a@ =~= key_a@);
        assert(self.key_b@ =~= key_b@);
        Ok(())
    }

    /// The bytes of the key `key`.
    pub open spec fn spec_key(&self, key: MifareAuthKey) -> Seq<u8> {
        match key {
            MifareAuthKey::DefaultKeyA => default_key_a(),
            MifareAuthKey::DefaultKeyB => default_key_b(),
            MifareAuthKey::CustomKeyA => self.key_a@,
            MifareAuthKey::CustomKeyB => self.key_b@,
        }
    }

    /// The bytes of the key `key`.
    pub fn key_bytes(&self, key: MifareAuthKey) -> (r: Vec<u8>)
        ensures
            r@ == self.spec_key(key),
    {
        let r = match key {
            MifareAuthKey::DefaultKeyA => vec![0xff, 0xff, 0xff, 0xff, 0xff, 0xff],
            MifareAuthKey::DefaultKeyB => vec![0x00, 0x00, 0x00, 0x00, 0x00, 0x00],
            MifareAuthKey::CustomKeyA => copy_range(self.key_a.as_slice(), 0, self.key_a.len()),
            MifareAuthKey::CustomKeyB => copy_range(self.key_b.as_slice(), 0, self.key_b.len()),
        };
        assert(r@ =~= self.spec_key(key));
        r
    }

    /// The sector trailer a rewrite writes, and the key it authenticates with:
    /// formatting writes the custom keys after authenticating with the factory
    /// key A; restoring writes the factory keys after authenticating with the
    /// custom key A.
    pub open spec fn spec_trailer(&self, mode: WriteSecMode) -> (Seq<u8>, MifareAuthKey) {
        match mode {
            WriteSecMode::Format => (
                self.key_a@ + default_access_bits() + self.key_b@,
                MifareAuthKey::DefaultKeyA,
            ),
            WriteSecMode::Restore => (
                default_key_a() + default_access_bits() + default_key_b(),
                MifareAuthKey::CustomKeyA,
            ),
        }
    }

    /// The sector trailer and the key of a rewrite in `mode` (see `spec_trailer`).
    pub fn sector_trailer(&self, mode: WriteSecMode) -> (r: (Vec<u8>, MifareAuthKey))
        ensures
            r.0@ == self.spec_trailer(mode).0,
            r.1 == self.spec_trailer(mode).1,
    {
        let mut packet: Vec<u8> = Vec::new();
        let access: Vec<u8> = vec![0xff, 0x07, 0x80, 0x00];
        let key: MifareAuthKey;
        match mode {
            WriteSecMode::Format => {
                append_bytes(&mut packet, self.key_a.as_slice());
                append_bytes(&mut packet, access.as_slice());
                append_bytes(&mut packet, self.key_b.as_slice());
                key = MifareAuthKey::DefaultKeyA;
            },
            WriteSecMode::Restore => {
                let a = self.key_bytes(MifareAuthKey::DefaultKeyA);
                let b = self.key_bytes(MifareAuthKey::DefaultKeyB);
                append_bytes(&mut packet, a.as_slice());
                append_bytes(&mut packet, access.as_slice());
                append_bytes(&mut packet, b.as_slice());
                key = MifareAuthKey::CustomKeyA;
            },
        }
        assert(access@ =~= default_access_bits());
        (packet, key)
    }
}

/// The bytes that ask the PN532 whether a frame is ready: the read-status
/// command and a filler byte, bit-reversed.
pub fn status_request() -> (r: Vec<u8>)
    ensures
        r@ == rev_bytes(seq![0x02u8, 0x00u8]),
{
    let mut tx: Vec<u8> = vec![SpiCommand::ReadStatus.value(), 0];
    let _ = reverse_bits(&mut tx);
    proof {
        assert(seq![SpiCommand::ReadStatus.code(), 0u8] =~= seq![0x02u8, 0x00u8]);
    }
    tx
}

/// Reads the two bytes of the status answer: no frame is ready when the
/// second byte, bit-reversed, is zero.
pub fn check_status(rx: &Vec<u8>) -> (r: Result<(), Pn532Error>)
    requires
        rx@.len() == 2,
    ensures
        rev8(rx@[1]) == 0 ==> r == Err::<(), Pn532Error>(Pn532Error::NoData(rev8(rx@[0]), rev8(rx@[1]))),
        rev8(rx@[1]) != 0 ==> r is Ok,
{
    let mut b = copy_range(rx.as_slice(), 0, 2);
    let _ = reverse_bits(&mut b);
    if b[1] == 0 {
        return Err(Pn532Error::NoData(b[0], b[1]));
    }
    Ok(())
}

/// The bytes clocked out to read a frame of `len` bytes (256 when not given):
/// the read-data command repeated, bit-reversed. A length of zero is refused.
pub fn read_request(len: Option<usize>) -> (r: Result<Vec<u8>, Pn532Error>)
    ensures
        ({
            let l: nat = match len {
                Some(l) => l as nat,
                None => 256,
            };
            &&& l == 0 ==> r == Err::<Vec<u8>, Pn532Error>(Pn532Error::InvalidBufferLength)
            &&& l > 0 ==> (r matches Ok(v) && v@ == rev_bytes(Seq::new(l, |i: int| 0x03u8)))
        }),
{
    let mut l: usize = 256;
    if let Some(len) = len {
        l = len;
    }
    let mut tx = repeat_byte(SpiCommand::ReadData.value(), l);
    match reverse_bits(&mut tx) {
        Ok(_) => Ok(tx),
        Err(e) => Err(e),
    }
}

/// The frame read over SPI from the bytes clocked in: the bytes bit-reversed.
/// Nothing read is refused.
pub fn decode_read(rx: Vec<u8>) -> (r: Result<Frame, Pn532Error>)
    ensures
        rx@.len() == 0 ==> r == Err::<Frame, Pn532Error>(Pn532Error::InvalidBufferLength),
        rx@.len() > 0 ==> (r matches Ok(f) && f@ == rev_bytes(rx@)),
{
    let mut b = rx;
    match reverse_bits(&mut b) {
        Ok(_) => Ok(Frame::from_bytes(b)),
        Err(e) => Err(e),
    }
}

/// The bytes clocked out to send `frame`: the write-data command and the
/// frame, bit-reversed.
pub fn write_request(frame: &Frame) -> (r: Vec<u8>)
    ensures
        r@ == rev_bytes(seq![0x01u8] + frame@),
{
    let mut tx: Vec<u8> = vec![SpiCommand::WriteData.value()];
    append_bytes(&mut tx, frame.bytes().as_slice());
    let _ = reverse_bits(&mut tx);
    proof {
        assert(seq![SpiCommand::WriteData.code()] + frame@ =~= seq![0x01u8] + frame@);
    }
    tx
}

/// Whether the frame of `command` with its parameters `data` can be encoded
/// (see `host_frame_encodable`).
pub fn command_frame_encodable(command: Command, data: Option<&[u8]>) -> (r: bool)
    ensures
        r == host_frame_encodable(seq![command.code()] + match data {
            Some(d) => d@,
            None => Seq::<u8>::empty(),
        }),
{
    let mut buffer: Vec<u8> = vec![command.value()];
    if let Some(data) = data {
        append_bytes(&mut buffer, data);
    }
    let ghost payload = seq![command.code()] + match data {
        Some(d) => d@,
        None => Seq::<u8>::empty(),
    };
    assert(buffer@ =~= payload);
    let n = buffer.len();
    let m = n % 256;
    if m == 255 {
        return false;
    }
    if m == 254 {
        return true;
    }
    let mut dcs: u8 = 0xD4;
    let mut i: usize = 0;
    while i < n
        invariant
            n == buffer@.len(),
            i <= n,
            dcs == (0xD4 + byte_sum(buffer@.take(i as int))) % 256,
        decreases n - i,
    {
        proof {
            lemma_byte_sum_step(buffer@, i as int);
        }
        dcs = dcs.wrapping_add(buffer[i]);
        i = i + 1;
    }
    assert(buffer@.take(n as int) =~= buffer@);
    dcs != 0
}

/// The frame of `command` with its parameters `data`.
pub fn command_frame(command: Command, data: Option<&[u8]>) -> (r: Result<Frame, Pn532Error>)
    requires
        host_frame_encodable(seq![command.code()] + match data {
            Some(d) => d@,
            None => Seq::<u8>::empty(),
        }),
    ensures
        ({
            let payload = seq![command.code()] + match data {
                Some(d) => d@,
                None => Seq::<u8>::empty(),
            };
            &&& frame_len_byte(payload.len()) > 0xfe ==> r == Err::<Frame, Pn532Error>(
                Pn532Error::InvalidBufferLength,
            )
            &&& frame_len_byte(payload.len()) <= 0xfe ==> (r matches Ok(f) && f@ == host_frame(payload))
        }),
{
    let mut buffer: Vec<u8> = vec![command.value()];
    if let Some(data) = data {
        append_bytes(&mut buffer, data);
    }
    proof {
        let payload = seq![command.code()] + match data {
            Some(d) => d@,
            None => Seq::<u8>::empty(),
        };
        assert(buffer@ =~= payload);
    }
    Frame::from_vec(&buffer)
}

/// The answer to a command must be an acknowledgement frame.
pub fn ack_result(frame: &Frame) -> (r: Result<(), Pn532Error>)
    requires
        frame_classifiable(frame@),
    ensures
        spi_frame_type(frame@) == FrameType::Ack ==> r is Ok,
        spi_frame_type(frame@) != FrameType::Ack ==> r == Err::<(), Pn532Error>(Pn532Error::NotAnAck),
{
    if frame.frame_type().is_ack() {
        Ok(())
    } else {
        Err(Pn532Error::NotAnAck)
    }
}

/// The reply frame is a normal frame answering the command whose reply code is `code`.
pub open spec fn answers(b: Seq<u8>, code: u8) -> bool {
    spi_frame_type(b) == FrameType::Normal && b[7] == code
}

/// The error a reply frame that does not answer the command with reply code
/// `code` is met with.
pub open spec fn reply_error(b: Seq<u8>) -> Pn532Error {
    if spi_frame_type(b) != FrameType::Normal {
        Pn532Error::FrameHasNoData
    } else {
        Pn532Error::InvalidResponseCode
    }
}

/// Reads the reply to SAMConfiguration: its data.
pub fn setup_reply(frame: &Frame) -> (r: Result<Vec<u8>, Pn532Error>)
    requires
        frame_readable(frame@),
    ensures
        answers(frame@, 0x15) ==> (r matches Ok(d) && d@ == frame@.subrange(6, frame@.len() - 2)),
        !answers(frame@, 0x15) ==> r == Err::<Vec<u8>, Pn532Error>(reply_error(frame@)),
{
    let code = frame.response_byte()?;
    if code == Command::SAMConfiguration.response() {
        frame.data()
    } else {
        Err(Pn532Error::InvalidResponseCode)
    }
}

/// Reads the reply to GetFirmwareVersion: the version and revision bytes.
pub fn version_reply(frame: &Frame) -> (r: Result<Vec<u8>, Pn532Error>)
    requires
        frame_readable(frame@),
        answers(frame@, 0x03) ==> frame@.len() >= 13,
    ensures
        answers(frame@, 0x03) ==> (r matches Ok(d) && d@ == frame@.subrange(9, 11)),
        !answers(frame@, 0x03) ==> r == Err::<Vec<u8>, Pn532Error>(reply_error(frame@)),
{
    let code = frame.response_byte()?;
    if code == Command::GetFirmwareVersion.response() {
        let data = frame.data()?;
        let v = copy_range(data.as_slice(), 3, 5);
        assert(v@ =~= frame@.subrange(9, 11));
        Ok(v)
    } else {
        Err(Pn532Error::InvalidResponseCode)
    }
}

/// The parameters of InListPassiveTarget: two targets at most, and the
/// baud rate of the card type.
pub fn passive_target_params(card_type: CardType) -> (r: Vec<u8>)
    ensures
        r@ == seq![0x02u8, match card_type {
            CardType::Mifare => 0x00u8,
            CardType::FelicaA => 0x01u8,
            CardType::FelicaB => 0x02u8,
            CardType::Jewel => 0x04u8,
        }],
{
    let freq: u8 = match card_type {
        CardType::Mifare => 0x00,
        CardType::FelicaA => 0x01,
        CardType::FelicaB => 0x02,
        CardType::Jewel => 0x04,
    };
    let r = vec![0x02, freq];
    assert(r@ =~= seq![0x02u8, freq]);
    r
}

/// The reply to InListPassiveTarget holds what it announces: at least the
/// target count, and for a target its identifier.
pub open spec fn passive_target_reply_readable(b: Seq<u8>) -> bool {
    answers(b, 0x4B) ==> {
        &&& b.len() >= 11
        &&& b[8] > 0 ==> {
            &&& b.len() >= 16
            &&& 8 + b[13] <= 255
            &&& b.len() - 8 >= 8 + b[13]
        }
    }
}

/// Reads the reply to InListPassiveTarget: the identifier of the first
/// target, or an error when no target was found.
pub fn passive_target_reply(frame: &Frame) -> (r: Result<Vec<u8>, Pn532Error>)
    requires
        frame_readable(frame@),
        passive_target_reply_readable(frame@),
    ensures
        !answers(frame@, 0x4B) ==> r == Err::<Vec<u8>, Pn532Error>(reply_error(frame@)),
        answers(frame@, 0x4B) && frame@[8] == 0 ==> r == Err::<Vec<u8>, Pn532Error>(
            Pn532Error::NoTargetDetected,
        ),
        answers(frame@, 0x4B) && frame@[8] > 0 ==> (r matches Ok(id) && id@ == frame@.subrange(
            14,
            14 + frame@[13],
        )),
{
    let code = frame.response_byte()?;
    if code == Command::InListPassiveTarget.response() {
        let data = frame.data()?;
        let devices = data[2];
        if devices > 0 {
            let id_len = data[7];
            let end: u8 = 8 + id_len;
            let id = copy_range(data.as_slice(), 8, end as usize);
            assert(id@ =~= frame@.subrange(14, 14 + frame@[13]));
            return Ok(id);
        }
        return Err(Pn532Error::NoTargetDetected);
    } else {
        return Err(Pn532Error::InvalidResponseCode);
    }
}

/// The parameters of the InDataExchange that authenticates block `addr` of
/// card `uuid` with `key`: target 1, the MIFARE command, the block, the key
/// and the identifier.
pub fn auth_params(keys: &MifareKeys, auth_mode: u8, addr: u8, uuid: &Vec<u8>, key: MifareAuthKey) -> (r: Vec<u8>)
    ensures
        r@ == seq![0x01u8, auth_mode, addr] + keys.spec_key(key) + uuid@,
{
    let mut tx: Vec<u8> = vec![0x01, auth_mode, addr];
    let k = keys.key_bytes(key);
    append_bytes(&mut tx, k.as_slice());
    append_bytes(&mut tx, uuid.as_slice());
    assert(tx@ =~= seq![0x01u8, auth_mode, addr] + keys.spec_key(key) + uuid@);
    tx
}

/// The parameters of the InDataExchange that reads block `addr`.
pub fn read_params(addr: u8) -> (r: Vec<u8>)
    ensures
        r@ == seq![0x01u8, 0x30u8, addr],
{
    let r = vec![0x01, PICC::READ.value(), addr];
    assert(r@ =~= seq![0x01u8, 0x30u8, addr]);
    r
}

/// The parameters of the InDataExchange that writes `data` to block `addr`;
/// a block is 16 bytes, so shorter data is refused.
pub fn write_params(addr: u8, data: &Vec<u8>) -> (r: Result<Vec<u8>, Pn532Error>)
    ensures
        data@.len() < 16 ==> r == Err::<Vec<u8>, Pn532Error>(Pn532Error::InvalidBufferLength),
        data@.len() >= 16 ==> (r matches Ok(v) && v@ == seq![0x01u8, 0xA0u8, addr] + data@),
{
    let mut tx: Vec<u8> = vec![0x01, PICC::WRITE.value(), addr];
    if data.len() < 16 {
        return Err(Pn532Error::InvalidBufferLength);
    }
    append_bytes(&mut tx, data.as_slice());
    assert(tx@ =~= seq![0x01u8, 0xA0u8, addr] + data@);
    Ok(tx)
}

/// The status byte of an InDataExchange reply names a known status.
pub open spec fn exchange_reply_readable(b: Seq<u8>, min_len: nat) -> bool {
    answers(b, 0x41) ==> b.len() >= min_len && is_status_code(b[8])
}

/// Reads the status of an InDataExchange reply (authentication or write):
/// success, or the status the card reported.
pub fn exchange_reply(frame: &Frame) -> (r: Result<(), Pn532Error>)
    requires
        frame_readable(frame@),
        exchange_reply_readable(frame@, 11),
    ensures
        !answers(frame@, 0x41) ==> r == Err::<(), Pn532Error>(reply_error(frame@)),
        answers(frame@, 0x41) && frame@[8] == 0 ==> r is Ok,
        answers(frame@, 0x41) && frame@[8] != 0 ==> (r matches Err(Pn532Error::Status(s)) && s.code()
            == frame@[8]),
{
    let code = frame.response_byte()?;
    if code == Command::InDataExchange.response() {
        let data = frame.data()?;
        match Pn532Status::from_code(data[2]) {
            Some(Pn532Status::Success) => Ok(()),
            Some(status) => Err(Pn532Error::Status(status)),
            None => Err(Pn532Error::InvalidResponseCode),
        }
    } else {
        Err(Pn532Error::InvalidResponseCode)
    }
}

/// Reads the reply to a block read: the 16 bytes of the block, or the status
/// the card reported.
pub fn read_reply(frame: &Frame) -> (r: Result<Vec<u8>, Pn532Error>)
    requires
        frame_readable(frame@),
        exchange_reply_readable(frame@, 27),
    ensures
        !answers(frame@, 0x41) ==> r == Err::<Vec<u8>, Pn532Error>(reply_error(frame@)),
        answers(frame@, 0x41) && frame@[8] == 0 ==> (r matches Ok(d) && d@ == frame@.subrange(9, 25)),
        answers(frame@, 0x41) && frame@[8] != 0 ==> (r matches Err(Pn532Error::Status(s)) && s.code()
            == frame@[8]),
{
    let code = frame.response_byte()?;
    if code == Command::InDataExchange.response() {
        let data = frame.data()?;
        match Pn532Status::from_code(data[2]) {
            Some(Pn532Status::Success) => {
                let d = copy_range(data.as_slice(), 3, 19);
                assert(d@ =~= frame@.subrange(9, 25));
                Ok(d)
            },
            Some(status) => Err(Pn532Error::Status(status)),
            None => Err(Pn532Error::InvalidResponseCode),
        }
    } else {
        Err(Pn532Error::InvalidResponseCode)
    }
}

/// Whether `frame` can be read as the reply to InListPassiveTarget (see
/// `frame_readable` and `passive_target_reply_readable`).
pub fn passive_target_reply_is_readable(frame: &Frame) -> (r: bool)
    ensures
        r == (frame_readable(frame@) && passive_target_reply_readable(frame@)),
{
    if !frame.is_readable() {
        return false;
    }
    let b = frame.bytes();
    if frame.frame_type() != FrameType::Normal || b[7] != 0x4B {
        return true;
    }
    if b.len() < 11 {
        return false;
    }
    if b[8] == 0 {
        return true;
    }
    b.len() >= 16 && b[13] <= 247 && b.len() - 8 >= 8 + b[13] as usize
}

/// Whether `frame` can be read as the reply to an InDataExchange of at
/// least `min_len` bytes (more than eight: the status byte is the ninth) (see `frame_readable` and `exchange_reply_readable`).
pub fn exchange_reply_is_readable(frame: &Frame, min_len: usize) -> (r: bool)
    requires
        min_len > 8,
    ensures
        r == (frame_readable(frame@) && exchange_reply_readable(frame@, min_len as nat)),
{
    if !frame.is_readable() {
        return false;
    }
    let b = frame.bytes();
    if frame.frame_type() != FrameType::Normal || b[7] != 0x41 {
        return true;
    }
    if b.len() < min_len {
        return false;
    }
    b[8] <= 0x99 && Pn532Status::from_code(b[8]).is_some()
}

} // verus!
