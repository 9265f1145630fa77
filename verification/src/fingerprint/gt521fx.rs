//! GT521FX fingerprint sensor: its command and answer packets.
use vstd::prelude::*;
use crate::bytes::{byte_sum, copy_range, lemma_byte_sum_bound, lemma_byte_sum_step, repeat_byte};

verus! {

/// The commands of the GT521FX, and its two answers.
#[derive(Debug, Clone, Copy, PartialEq, Eq, Structural)]
pub enum Command {
    Open,
    Close,
    UsbInternalCheck,
    ChangeBaundRate,
    CmosLed,
    GetEnrollCount,
    CheckEnrolled,
    EnrollStart,
    Enroll1,
    Enroll2,
    Enroll3,
    IsPressFinger,
    DeleteID,
    DeleteAll,
    Verify,
    Identify,
    VerifyTemplate,
    IdentifyTemplate,
    CaptureFinger,
    MakeTemplate,
    GetImage,
    GetRawImage,
    GetTemplate,
    SetTemplate,
    GetDatabaseStart,
    GetDatabaseEnd,
    SetSecurityLevel,
    GetSecurityLevel,
    IdentifyTemplate2,
    Ack,
    Nack,
}

impl Command {
    pub open spec fn code(self) -> u16 {
        match self {
            Command::Open => 0x01,
            Command::Close => 0x02,
            Command::UsbInternalCheck => 0x03,
            Command::ChangeBaundRate => 0x04,
            Command::CmosLed => 0x12,
            Command::GetEnrollCount => 0x20,
            Command::CheckEnrolled => 0x21,
            Command::EnrollStart => 0x22,
            Command::Enroll1 => 0x23,
            Command::Enroll2 => 0x24,
            Command::Enroll3 => 0x25,
            Command::IsPressFinger => 0x26,
            Command::DeleteID => 0x40,
            Command::DeleteAll => 0x41,
            Command::Verify => 0x50,
            Command::Identify => 0x51,
            Command::VerifyTemplate => 0x52,
            Command::IdentifyTemplate => 0x53,
            Command::CaptureFinger => 0x60,
            Command::MakeTemplate => 0x61,
            Command::GetImage => 0x62,
            Command::GetRawImage => 0x63,
            Command::GetTemplate => 0x70,
            Command::SetTemplate => 0x71,
            Command::GetDatabaseStart => 0x72,
            Command::GetDatabaseEnd => 0x73,
            Command::SetSecurityLevel => 0xF0,
            Command::GetSecurityLevel => 0xF1,
            Command::IdentifyTemplate2 => 0xF9,
            Command::Ack => 0x30,
            Command::Nack => 0x31,
        }
    }

    pub fn value(&self) -> (v: u16)
        ensures
            v == self.code(),
    {
        match self {
            Command::Open => 0x01,
            Command::Close => 0x02,
            Command::UsbInternalCheck => 0x03,
            Command::ChangeBaundRate => 0x04,
            Command::CmosLed => 0x12,
            Command::GetEnrollCount => 0x20,
            Command::CheckEnrolled => 0x21,
            Command::EnrollStart => 0x22,
            Command::Enroll1 => 0x23,
            Command::Enroll2 => 0x24,
            Command::Enroll3 => 0x25,
            Command::IsPressFinger => 0x26,
            Command::DeleteID => 0x40,
            Command::DeleteAll => 0x41,
            Command::Verify => 0x50,
            Command::Identify => 0x51,
            Command::VerifyTemplate => 0x52,
            Command::IdentifyTemplate => 0x53,
            Command::CaptureFinger => 0x60,
            Command::MakeTemplate => 0x61,
            Command::GetImage => 0x62,
            Command::GetRawImage => 0x63,
            Command::GetTemplate => 0x70,
            Command::SetTemplate => 0x71,
            Command::GetDatabaseStart => 0x72,
            Command::GetDatabaseEnd => 0x73,
            Command::SetSecurityLevel => 0xF0,
            Command::GetSecurityLevel => 0xF1,
            Command::IdentifyTemplate2 => 0xF9,
            Command::Ack => 0x30,
            Command::Nack => 0x31,
        }
    }

    /// The command codes are those of the GT521FX protocol, no two alike:
    /// open 0x01, close 0x02, USB check 0x03, baud rate 0x04, LED 0x12;
    /// enrollment 0x20 to 0x26 (count, check, start, the three captures,
    /// finger pressed); deletion 0x40 (one) and 0x41 (all); matching 0x50 to
    /// 0x53, where 1:1 verification has the low bit clear and 1:N
    /// identification has it set (verify 0x50, identify 0x51, verify template
    /// 0x52, identify template 0x53); images and templates 0x60 to 0x63 and
    /// 0x70 to 0x73; security level 0xF0 (set) and 0xF1 (get); identify
    /// template 2 0xF9; the acknowledgements 0x30 and 0x31.
    pub proof fn lemma_protocol_codes(self, other: Command)
        ensures
            self.code() == other.code() ==> self == other,
            Command::Open.code() == 0x01 && Command::Close.code() == 0x02 && Command::UsbInternalCheck.code() == 0x03
                && Command::ChangeBaundRate.code() == 0x04 && Command::CmosLed.code() == 0x12,
            Command::GetEnrollCount.code() == 0x20 && Command::CheckEnrolled.code() == 0x21 && Command::EnrollStart.code()
                == 0x22 && Command::Enroll1.code() == 0x23 && Command::Enroll2.code() == 0x24 && Command::Enroll3.code()
                == 0x25 && Command::IsPressFinger.code() == 0x26,
            Command::DeleteID.code() == 0x40 && Command::DeleteAll.code() == 0x41,
            Command::Verify.code() == 0x50 && Command::Identify.code() == 0x51 && Command::VerifyTemplate.code() == 0x52
                && Command::IdentifyTemplate.code() == 0x53,
            Command::Verify.code() % 2 == 0 && Command::VerifyTemplate.code() % 2 == 0,
            Command::Identify.code() % 2 == 1 && Command::IdentifyTemplate.code() % 2 == 1,
            Command::CaptureFinger.code() == 0x60 && Command::MakeTemplate.code() == 0x61 && Command::GetImage.code()
                == 0x62 && Command::GetRawImage.code() == 0x63,
            Command::GetTemplate.code() == 0x70 && Command::SetTemplate.code() == 0x71 && Command::GetDatabaseStart.code()
                == 0x72 && Command::GetDatabaseEnd.code() == 0x73,
            Command::SetSecurityLevel.code() == 0xF0 && Command::GetSecurityLevel.code() == 0xF1
                && Command::IdentifyTemplate2.code() == 0xF9,
            Command::Ack.code() == 0x30 && Command::Nack.code() == 0x31,
    {
    }

    /// Every command code fits in one byte.
    pub proof fn lemma_code_bound(self)
        ensures
            self.code() < 256,
    {
    }
}

/// The error codes the GT521FX sends with a NACK.
#[derive(Debug, Clone, Copy, PartialEq, Eq, Structural)]
pub enum Gt521fxError {
    NackTimeout,
    NackInvalidBaudRate,
    NackInvalidPos,
    NackIsNotUsed,
    NackIsAlreadyUsed,
    NackCommErr,
    NackVerifyFailed,
    NackIdentifyFailed,
    NackDbIsFull,
    NackDbIsEmpty,
    NackTurnErr,
    NackBadFinger,
    NackEnrollFailed,
    NackIsNotSupported,
    NackDevErr,
    NackCaptureCanceled,
    NackInvalidParam,
    NackFingerIsNotPresent,
}

impl Gt521fxError {
    /// The error codes of the GT521FX protocol that a NACK carries, 0x1001 and up, no two alike.
    pub proof fn lemma_code_table(self, other: Gt521fxError)
        ensures
            self.code() == other.code() ==> self == other,
            Gt521fxError::NackTimeout.code() == 0x1001,
            Gt521fxError::NackInvalidBaudRate.code() == 0x1002,
            Gt521fxError::NackInvalidPos.code() == 0x1003,
            Gt521fxError::NackIsNotUsed.code() == 0x1004,
            Gt521fxError::NackIsAlreadyUsed.code() == 0x1005,
            Gt521fxError::NackCommErr.code() == 0x1006,
            Gt521fxError::NackVerifyFailed.code() == 0x1007,
            Gt521fxError::NackIdentifyFailed.code() == 0x1008,
            Gt521fxError::NackDbIsFull.code() == 0x1009,
            Gt521fxError::NackDbIsEmpty.code() == 0x100A,
            Gt521fxError::NackTurnErr.code() == 0x100B,
            Gt521fxError::NackBadFinger.code() == 0x100C,
            Gt521fxError::NackEnrollFailed.code() == 0x100D,
            Gt521fxError::NackIsNotSupported.code() == 0x100E,
            Gt521fxError::NackDevErr.code() == 0x100F,
            Gt521fxError::NackCaptureCanceled.code() == 0x1010,
            Gt521fxError::NackInvalidParam.code() == 0x1011,
            Gt521fxError::NackFingerIsNotPresent.code() == 0x1012,
    {
    }

    pub open spec fn code(self) -> u16 {
        match self {
            Gt521fxError::NackTimeout => 0x1001,
            Gt521fxError::NackInvalidBaudRate => 0x1002,
            Gt521fxError::NackInvalidPos => 0x1003,
            Gt521fxError::NackIsNotUsed => 0x1004,
            Gt521fxError::NackIsAlreadyUsed => 0x1005,
            Gt521fxError::NackCommErr => 0x1006,
            Gt521fxError::NackVerifyFailed => 0x1007,
            Gt521fxError::NackIdentifyFailed => 0x1008,
            Gt521fxError::NackDbIsFull => 0x1009,
            Gt521fxError::NackDbIsEmpty => 0x100A,
            Gt521fxError::NackTurnErr => 0x100B,
            Gt521fxError::NackBadFinger => 0x100C,
            Gt521fxError::NackEnrollFailed => 0x100D,
            Gt521fxError::NackIsNotSupported => 0x100E,
            Gt521fxError::NackDevErr => 0x100F,
            Gt521fxError::NackCaptureCanceled => 0x1010,
            Gt521fxError::NackInvalidParam => 0x1011,
            Gt521fxError::NackFingerIsNotPresent => 0x1012,
        }
    }

    pub fn value(&self) -> (v: u16)
        ensures
            v == self.code(),
    {
        match self {
            Gt521fxError::NackTimeout => 0x1001,
            Gt521fxError::NackInvalidBaudRate => 0x1002,
            Gt521fxError::NackInvalidPos => 0x1003,
            Gt521fxError::NackIsNotUsed => 0x1004,
            Gt521fxError::NackIsAlreadyUsed => 0x1005,
            Gt521fxError::NackCommErr => 0x1006,
            Gt521fxError::NackVerifyFailed => 0x1007,
            Gt521fxError::NackIdentifyFailed => 0x1008,
            Gt521fxError::NackDbIsFull => 0x1009,
            Gt521fxError::NackDbIsEmpty => 0x100A,
            Gt521fxError::NackTurnErr => 0x100B,
            Gt521fxError::NackBadFinger => 0x100C,
            Gt521fxError::NackEnrollFailed => 0x100D,
            Gt521fxError::NackIsNotSupported => 0x100E,
            Gt521fxError::NackDevErr => 0x100F,
            Gt521fxError::NackCaptureCanceled => 0x1010,
            Gt521fxError::NackInvalidParam => 0x1011,
            Gt521fxError::NackFingerIsNotPresent => 0x1012,
        }
    }

}

/// A 16-bit little-endian value.
pub open spec fn le16(lo: u8, hi: u8) -> int {
    lo + 256 * hi
}

/// A 32-bit little-endian value.
pub open spec fn le32(b0: u8, b1: u8, b2: u8, b3: u8) -> int {
    b0 + 256 * b1 + 65536 * b2 + 16777216 * b3
}

/// Byte `k` (0 = least significant, up to 3) of `v`.
pub open spec fn byte_of(v: int, k: int) -> u8 {
    let d = if k == 0 {
        1
    } else if k == 1 {
        256
    } else if k == 2 {
        65536
    } else {
        16777216
    };
    ((v / d) % 256) as u8
}

/// The checksum of a packet: the sum of its bytes.
pub fn calc_crc(data: &[u8]) -> (r: u16)
    requires
        byte_sum(data@) <= 0xffff,
    ensures
        r == byte_sum(data@),
{
    let mut ret: u16 = 0;
    let mut i: usize = 0;
    while i < data.len()
        invariant
            i <= data@.len(),
            byte_sum(data@) <= 0xffff,
            ret == byte_sum(data@.take(i as int)),
        decreases data@.len() - i,
    {
        proof {
            lemma_byte_sum_step(data@, i as int);
            lemma_byte_sum_prefix_bound(data@, i + 1);
        }
        ret += data[i] as u16;
        i = i + 1;
    }
    assert(data@.take(data@.len() as int) =~= data@);
    ret
}

/// The sum of a prefix is at most the sum of the whole.
pub proof fn lemma_byte_sum_prefix_bound(s: Seq<u8>, i: int)
    requires
        0 <= i <= s.len(),
    ensures
        byte_sum(s.take(i)) <= byte_sum(s),
    decreases s.len() - i,
{
    if i < s.len() {
        lemma_byte_sum_prefix_bound(s, i + 1);
        lemma_byte_sum_step(s, i);
    } else {
        assert(s.take(i) =~= s);
    }
}

/// The first ten bytes of a command packet: the start code 0x55 0xAA, device
/// 1, the parameter and the command, little-endian.
pub open spec fn packet_body(command: Command, parameter: u32) -> Seq<u8> {
    seq![
        0x55u8,
        0xAAu8,
        0x01u8,
        0x00u8,
        byte_of(parameter as int, 0),
        byte_of(parameter as int, 1),
        byte_of(parameter as int, 2),
        byte_of(parameter as int, 3),
        byte_of(command.code() as int, 0),
        byte_of(command.code() as int, 1),
    ]
}

/// A command packet: its body and the checksum of the body, little-endian.
pub open spec fn command_packet(command: Command, parameter: u32) -> Seq<u8> {
    let body = packet_body(command, parameter);
    body + seq![byte_of(byte_sum(body) as int, 0), byte_of(byte_sum(body) as int, 1)]
}

proof fn lemma_le_bytes_u32(p: u32)
    ensures
        (p & 0xFF) as u8 == byte_of(p as int, 0),
        ((p >> 8) & 0xFF) as u8 == byte_of(p as int, 1),
        ((p >> 16) & 0xFF) as u8 == byte_of(p as int, 2),
        ((p >> 24) & 0xFF) as u8 == byte_of(p as int, 3),
{
    assert((p & 0xFF) == p % 256 && ((p >> 8) & 0xFF) == (p / 256) % 256 && ((p >> 16) & 0xFF) == (p
        / 65536) % 256 && ((p >> 24) & 0xFF) == (p / 16777216) % 256) by (bit_vector);
}

proof fn lemma_le_bytes_u16(v: u16)
    ensures
        (v & 0xFF) as u8 == byte_of(v as int, 0),
        ((v >> 8) & 0xFF) as u8 == byte_of(v as int, 1),
{
    assert((v & 0xFF) == v % 256 && ((v >> 8) & 0xFF) == (v / 256) % 256) by (bit_vector);
}

/// The packet that sends `command` with `parameter` to the sensor.
pub fn send_command_packet(command: Command, parameter: u32) -> (r: Vec<u8>)
    ensures
        r@ == command_packet(command, parameter),
{
    let mut data: Vec<u8> = Vec::new();
    data.push(0x55);
    data.push(0xaa);
    data.push(0x01);
    data.push(0x00);
    data.push((parameter & 0xFF) as u8);
    data.push(((parameter >> 8) & 0xFF) as u8);
    data.push(((parameter >> 16) & 0xFF) as u8);
    data.push(((parameter >> 24) & 0xFF) as u8);
    let c = command.value();
    data.push((c & 0xFF) as u8);
    data.push(((c >> 8) & 0xFF) as u8);
    proof {
        lemma_le_bytes_u32(parameter);
        lemma_le_bytes_u16(c);
        assert(data@ =~= packet_body(command, parameter));
        lemma_byte_sum_bound(data@);
    }
    let crc: u16 = calc_crc(data.as_slice());
    data.push((crc & 0xFF) as u8);
    data.push(((crc >> 8) & 0xFF) as u8);
    proof {
        lemma_le_bytes_u16(crc);
        assert(data@ =~= command_packet(command, parameter));
    }
    data
}

/// Why a packet from the sensor was refused.
#[derive(Debug, Clone, Copy, PartialEq, Eq, Structural)]
pub enum PacketError {
    /// Neither start code byte is right.
    InvalidSignature,
    /// The checksum read, and the one computed.
    InvalidChecksum(u16, u16),
}

/// The answer to a command.
pub struct Response {
    pub device_id: u16,
    pub parameter: u32,
    pub response: u16,
}

/// What a 12-byte answer packet says: refused, or its device id, parameter
/// and answer code. The start code is refused only when both of its bytes
/// are wrong, and the checksum is compared with the sum of the first nine bytes.
pub open spec fn spec_parse_response(r: Seq<u8>) -> Result<(u16, u32, u16), PacketError> {
    if r[0] != 0x55 && r[1] != 0xAA {
        Err(PacketError::InvalidSignature)
    } else if le16(r[10], r[11]) != byte_sum(r.take(9)) {
        Err(PacketError::InvalidChecksum(le16(r[10], r[11]) as u16, byte_sum(r.take(9)) as u16))
    } else {
        Ok((le16(r[2], r[3]) as u16, le32(r[4], r[5], r[6], r[7]) as u32, le16(r[8], r[9]) as u16))
    }
}

/// Removes the first `n` bytes of `data` and returns them.
fn take_front(data: &mut Vec<u8>, n: usize) -> (r: Vec<u8>)
    requires
        n <= old(data)@.len(),
    ensures
        r@ == old(data)@.take(n as int),
        final(data)@ == old(data)@.skip(n as int),
{
    let front = copy_range(data.as_slice(), 0, n);
    let rest = copy_range(data.as_slice(), n, data.len());
    *data = rest;
    assert(front@ =~= old(data)@.take(n as int));
    assert(rest@ =~= old(data)@.skip(n as int));
    front
}

proof fn lemma_join16(lo: u8, hi: u8)
    ensures
        (((hi as u16) << 8u16) | (lo as u16)) == le16(lo, hi),
{
    assert((((hi as u16) << 8u16) | (lo as u16)) == (lo as u16) + 256 * (hi as u16)) by (bit_vector);
}

proof fn lemma_join32(b0: u8, b1: u8, b2: u8, b3: u8)
    ensures
        (((b3 as u32) << 24u32) | ((b2 as u32) << 16u32) | ((b1 as u32) << 8u32) | (b0 as u32)) == le32(
            b0,
            b1,
            b2,
            b3,
        ),
{
    assert((((b3 as u32) << 24u32) | ((b2 as u32) << 16u32) | ((b1 as u32) << 8u32) | (b0 as u32)) == (
    b0 as u32) + 256 * (b1 as u32) + 65536 * (b2 as u32) + 16777216 * (b3 as u32)) by (bit_vector);
}

impl Response {
    /// An empty answer.
    pub fn new() -> (r: Response)
        ensures
            r.device_id == 0 && r.parameter == 0 && r.response == 0,
    {
        Response { device_id: 0, parameter: 0, response: 0 }
    }

    /// The size of an answer packet.
    pub fn size(&self) -> (r: u32)
        ensures
            r == 12,
    {
        12
    }

    /// Takes the 12 bytes of an answer packet off `data` and reads them into
    /// this answer; says whether the answer is an ACK.
    pub fn parser(&mut self, data: &mut Vec<u8>) -> (r: Result<bool, PacketError>)
        requires
            old(data)@.len() >= 12,
        ensures
            final(data)@ == old(data)@.skip(12),
            spec_parse_response(old(data)@.take(12)) matches Err(e) ==> r == Err::<bool, PacketError>(e)
                && final(self).device_id == old(self).device_id && final(self).parameter == old(
                self,
            ).parameter && final(self).response == old(self).response,
            spec_parse_response(old(data)@.take(12)) matches Ok((d, p, c)) ==> r == Ok::<bool, PacketError>(
                c == 0x30,
            ) && final(self).device_id == d && final(self).parameter == p && final(self).response == c,
    {
        let response_data = take_front(data, 12);
        if response_data[0] != 0x55 && response_data[1] != 0xAA {
            return Err(PacketError::InvalidSignature);
        }
        proof {
            lemma_byte_sum_bound(response_data@.take(9));
        }
        let head = copy_range(response_data.as_slice(), 0, 9);
        assert(head@ =~= response_data@.take(9));
        let calc_checksum = calc_crc(head.as_slice());
        let checksum: u16 = ((response_data[11] as u16) << 8) | (response_data[10] as u16);
        proof {
            lemma_join16(response_data@[10], response_data@[11]);
        }
        if checksum != calc_checksum {
            return Err(PacketError::InvalidChecksum(checksum, calc_checksum));
        }
        self.device_id = ((response_data[3] as u16) << 8) | (response_data[2] as u16);
        self.parameter = ((response_data[7] as u32) << 24) | ((response_data[6] as u32) << 16) | ((
        response_data[5] as u32) << 8) | (response_data[4] as u32);
        self.response = ((response_data[9] as u16) << 8) | (response_data[8] as u16);
        proof {
            lemma_join16(response_data@[2], response_data@[3]);
            lemma_join16(response_data@[8], response_data@[9]);
            lemma_join32(response_data@[4], response_data@[5], response_data@[6], response_data@[7]);
        }
        if self.response != Command::Ack.value() {
            return Ok(false);
        }
        Ok(true)
    }
}

/// A packet the sensor would read as sent reads back as sent: parsing a
/// command packet gives device 1, the parameter and the command code.
pub proof fn lemma_packet_roundtrip(command: Command, parameter: u32)
    ensures
        spec_parse_response(command_packet(command, parameter)) == Ok::<(u16, u32, u16), PacketError>(
            (1u16, parameter, command.code()),
        ),
{
    let body = packet_body(command, parameter);
    let pk = command_packet(command, parameter);
    command.lemma_code_bound();
    assert(byte_of(command.code() as int, 1) == 0);
    assert(pk.take(9) =~= body.take(9));
    assert(body.take(9) =~= body.drop_last());
    lemma_byte_sum_bound(body);
    assert(byte_sum(body) == byte_sum(body.drop_last()) + body.last());
    let s = byte_sum(body) as int;
    assert(le16(byte_of(s, 0), byte_of(s, 1)) == s) by (nonlinear_arith)
        requires
            0 <= s <= 2550,
            byte_of(s, 0) == ((s / 1) % 256) as u8,
            byte_of(s, 1) == ((s / 256) % 256) as u8,
    ;
    let p = parameter as int;
    assert(le32(byte_of(p, 0), byte_of(p, 1), byte_of(p, 2), byte_of(p, 3)) == p) by (nonlinear_arith)
        requires
            0 <= p < 4294967296,
            byte_of(p, 0) == ((p / 1) % 256) as u8,
            byte_of(p, 1) == ((p / 256) % 256) as u8,
            byte_of(p, 2) == ((p / 65536) % 256) as u8,
            byte_of(p, 3) == ((p / 16777216) % 256) as u8,
    ;
    let c = command.code() as int;
    assert(le16(byte_of(c, 0), byte_of(c, 1)) == c) by (nonlinear_arith)
        requires
            0 <= c < 256,
            byte_of(c, 0) == ((c / 1) % 256) as u8,
            byte_of(c, 1) == ((c / 256) % 256) as u8,
    ;
}

/// The data packet that answers Open: firmware version, size of the ISO
/// area and serial number of the sensor.
pub struct OpenDataPacket {
    pub firmware_version: u32,
    pub iso_area_max_size: u32,
    pub device_serial_num: Vec<u8>,
}

/// What a 30-byte Open data packet says: refused, or the firmware version,
/// the ISO area size and the first 15 serial bytes (the packet's 16th serial
/// byte is not read).
pub open spec fn spec_parse_open_data(r: Seq<u8>) -> Result<(u32, u32, Seq<u8>), PacketError> {
    if r[0] != 0x5A && r[1] != 0xA5 {
        Err(PacketError::InvalidSignature)
    } else if le16(r[28], r[29]) != byte_sum(r.take(28)) {
        Err(PacketError::InvalidChecksum(le16(r[28], r[29]) as u16, byte_sum(r.take(28)) as u16))
    } else {
        Ok((
            le32(r[4], r[5], r[6], r[7]) as u32,
            le32(r[8], r[9], r[10], r[11]) as u32,
            r.subrange(12, 27),
        ))
    }
}

impl OpenDataPacket {
    /// An empty packet: zero fields, 16 zero serial bytes.
    pub fn new() -> (p: OpenDataPacket)
        ensures
            p.firmware_version == 0,
            p.iso_area_max_size == 0,
            p.device_serial_num@ == Seq::new(16, |i: int| 0u8),
    {
        OpenDataPacket {
            firmware_version: 0,
            iso_area_max_size: 0,
            device_serial_num: repeat_byte(0, 16),
        }
    }

    /// The size of the packet.
    pub fn size(&self) -> (r: u32)
        ensures
            r == 30,
    {
        30
    }

    /// Takes the 30 bytes of an Open data packet off `data` and reads them in;
    /// the last serial byte keeps its value.
    pub fn parser(&mut self, data: &mut Vec<u8>) -> (r: Result<bool, PacketError>)
        requires
            old(data)@.len() >= 30,
            old(self).device_serial_num@.len() == 16,
        ensures
            final(data)@ == old(data)@.skip(30),
            spec_parse_open_data(old(data)@.take(30)) matches Err(e) ==> r == Err::<bool, PacketError>(
                e,
            ) && final(self).firmware_version == old(self).firmware_version
                && final(self).iso_area_max_size == old(self).iso_area_max_size
                && final(self).device_serial_num@ == old(self).device_serial_num@,
            spec_parse_open_data(old(data)@.take(30)) matches Ok((v, s, n)) ==> r == Ok::<bool, PacketError>(true)
                && final(self).firmware_version == v && final(self).iso_area_max_size == s
                && final(self).device_serial_num@ == n + seq![old(self).device_serial_num@[15]],
    {
        let response_data = take_front(data, 30);
        if response_data[0] != 0x5A && response_data[1] != 0xA5 {
            return Err(PacketError::InvalidSignature);
        }
        proof {
            lemma_byte_sum_bound(response_data@.take(28));
        }
        let head = copy_range(response_data.as_slice(), 0, 28);
        assert(head@ =~= response_data@.take(28));
        let calc_checksum = calc_crc(head.as_slice());
        let checksum: u16 = ((response_data[29] as u16) << 8) | (response_data[28] as u16);
        proof {
            lemma_join16(response_data@[28], response_data@[29]);
        }
        if checksum != calc_checksum {
            return Err(PacketError::InvalidChecksum(checksum, calc_checksum));
        }
        self.firmware_version = ((response_data[7] as u32) << 24) | ((response_data[6] as u32) << 16)
            | ((response_data[5] as u32) << 8) | (response_data[4] as u32);
        self.iso_area_max_size = ((response_data[11] as u32) << 24) | ((response_data[10] as u32)
            << 16) | ((response_data[9] as u32) << 8) | (response_data[8] as u32);
        proof {
            lemma_join32(response_data@[4], response_data@[5], response_data@[6], response_data@[7]);
            lemma_join32(response_data@[8], response_data@[9], response_data@[10], response_data@[11]);
        }
        let mut serial = copy_range(self.device_serial_num.as_slice(), 0, 16);
        let mut i: usize = 0;
        while i < 15
            invariant
                i <= 15,
                response_data@.len() == 30,
                serial@.len() == 16,
                forall|k: int| 0 <= k < i ==> serial@[k] == response_data@[k + 12],
                forall|k: int| i <= k < 16 ==> serial@[k] == old(self).device_serial_num@[k],
            decreases 15 - i,
        {
            serial.set(i, response_data[i + 12]);
            i = i + 1;
        }
        assert(serial@ =~= response_data@.subrange(12, 27) + seq![old(self).device_serial_num@[15]]);
        self.device_serial_num = serial;
        Ok(true)
    }
}

/// How many bytes to wait for after a command: the answer packet, and the
/// data packet when one is expected.
pub fn reply_len(data_packet_size: Option<u32>) -> (r: u32)
    requires
        data_packet_size matches Some(n) ==> n <= u32::MAX - 12,
    ensures
        r == 12 + match data_packet_size {
            Some(n) => n as int,
            None => 0,
        },
{
    let response = Response::new();
    response.size() + match data_packet_size {
        Some(n) => n,
        None => 0,
    }
}

/// The commands that start the sensor: Open (asking for its data packet),
/// then the LED on.
pub fn init_commands() -> (r: Vec<(Command, u32)>)
    ensures
        r@ == seq![(Command::Open, 1u32), (Command::CmosLed, 1u32)],
{
    let r = vec![(Command::Open, 0x1), (Command::CmosLed, 0x1)];
    assert(r@ =~= seq![(Command::Open, 1u32), (Command::CmosLed, 1u32)]);
    r
}

/// The commands that stop the sensor: the LED off, then Close.
pub fn unload_commands() -> (r: Vec<(Command, u32)>)
    ensures
        r@ == seq![(Command::CmosLed, 0u32), (Command::Close, 0u32)],
{
    let r = vec![(Command::CmosLed, 0x0), (Command::Close, 0x0)];
    assert(r@ =~= seq![(Command::CmosLed, 0u32), (Command::Close, 0u32)]);
    r
}

/// The answer code of an ACK.
pub fn is_ack(response: &Response) -> (r: bool)
    ensures
        r == (response.response == 0x30),
{
    response.response == Command::Ack.value()
}

/// The two commands of the sensor's watch loop.
#[derive(Debug, Clone, Copy, PartialEq, Eq, Structural)]
pub enum PollStage {
    /// Asking the sensor to capture a finger.
    Capture,
    /// Asking the sensor to identify the captured finger.
    Identify,
}

/// What the watch loop learned from one answer.
#[derive(Debug, Clone, Copy, PartialEq, Eq, Structural)]
pub enum FingerPoll {
    /// The command could not be exchanged.
    Failed,
    /// No finger on the sensor: wait and capture again.
    NoFinger,
    /// A finger was captured: identify it next.
    Identify,
    /// The finger is enrolled.
    Registered,
    /// The finger is not enrolled.
    NotRegistered,
}

pub open spec fn spec_poll_step(stage: PollStage, answer: Option<Response>) -> FingerPoll {
    match answer {
        None => FingerPoll::Failed,
        Some(r) => match stage {
            PollStage::Capture => if r.response == 0x30 { FingerPoll::Identify } else { FingerPoll::NoFinger },
            PollStage::Identify => if r.response == 0x30 { FingerPoll::Registered } else { FingerPoll::NotRegistered },
        },
    }
}

/// What the watch loop learned from the answer to a command of `stage`
/// (None where the exchange failed): an ACK to a capture leads on to
/// identifying, an ACK to an identification says the finger is enrolled.
pub fn poll_step(stage: PollStage, answer: Option<&Response>) -> (r: FingerPoll)
    ensures
        r == spec_poll_step(stage, match answer {
            Some(a) => Some(*a),
            None => None,
        }),
{
    match answer {
        None => FingerPoll::Failed,
        Some(a) => {
            let ack = is_ack(a);
            match stage {
                PollStage::Capture => if ack { FingerPoll::Identify } else { FingerPoll::NoFinger },
                PollStage::Identify => if ack { FingerPoll::Registered } else { FingerPoll::NotRegistered },
            }
        },
    }
}

} // verus!
