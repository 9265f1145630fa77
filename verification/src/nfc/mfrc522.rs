//! MFRC522 over SPI: register addressing, the frames it sends to MIFARE
//! cards and the answers it reads.
use vstd::prelude::*;
use crate::bytes::{append_bytes, copy_range};
use crate::nfc::pn532_spi::{MifareAuthKey, MifareKeys, PICC};

verus! {

/// The registers of the MFRC522.
#[derive(Debug, Clone, Copy, PartialEq, Eq, Structural)]
pub enum Register {
    BitFraming,
    Coll,
    ComIEn,
    ComIrq,
    Command,
    CrcResultH,
    CrcResultL,
    Demod,
    DivIrq,
    Error,
    FifoData,
    FifoLevel,
    ModWidth,
    Mode,
    ReloadH,
    ReloadL,
    RxMode,
    Status1,
    Status2,
    TCountValH,
    TCountValL,
    TMode,
    TPrescaler,
    TxAsk,
    TxControl,
    TxMode,
    Version,
}

impl Register {
    /// The register addresses of the MFRC522 data sheet, no two alike.
    pub proof fn lemma_address_table(self, other: Register)
        ensures
            self.address() == other.address() ==> self == other,
            Register::BitFraming.address() == 0x0d,
            Register::Coll.address() == 0x0e,
            Register::ComIEn.address() == 0x02,
            Register::ComIrq.address() == 0x04,
            Register::Command.address() == 0x01,
            Register::CrcResultH.address() == 0x21,
            Register::CrcResultL.address() == 0x22,
            Register::Demod.address() == 0x19,
            Register::DivIrq.address() == 0x05,
            Register::Error.address() == 0x06,
            Register::FifoData.address() == 0x09,
            Register::FifoLevel.address() == 0x0a,
            Register::ModWidth.address() == 0x24,
            Register::Mode.address() == 0x11,
            Register::ReloadH.address() == 0x2c,
            Register::ReloadL.address() == 0x2d,
            Register::RxMode.address() == 0x13,
            Register::Status1.address() == 0x07,
            Register::Status2.address() == 0x08,
            Register::TCountValH.address() == 0x2e,
            Register::TCountValL.address() == 0x2f,
            Register::TMode.address() == 0x2a,
            Register::TPrescaler.address() == 0x2b,
            Register::TxAsk.address() == 0x15,
            Register::TxControl.address() == 0x14,
            Register::TxMode.address() == 0x12,
            Register::Version.address() == 0x37,
    {
    }

    pub open spec fn address(self) -> u8 {
        match self {
            Register::BitFraming => 0x0d,
            Register::Coll => 0x0e,
            Register::ComIEn => 0x02,
            Register::ComIrq => 0x04,
            Register::Command => 0x01,
            Register::CrcResultH => 0x21,
            Register::CrcResultL => 0x22,
            Register::Demod => 0x19,
            Register::DivIrq => 0x05,
            Register::Error => 0x06,
            Register::FifoData => 0x09,
            Register::FifoLevel => 0x0a,
            Register::ModWidth => 0x24,
            Register::Mode => 0x11,
            Register::ReloadH => 0x2c,
            Register::ReloadL => 0x2d,
            Register::RxMode => 0x13,
            Register::Status1 => 0x07,
            Register::Status2 => 0x08,
            Register::TCountValH => 0x2e,
            Register::TCountValL => 0x2f,
            Register::TMode => 0x2a,
            Register::TPrescaler => 0x2b,
            Register::TxAsk => 0x15,
            Register::TxControl => 0x14,
            Register::TxMode => 0x12,
            Register::Version => 0x37,
        }
    }

    pub fn value(&self) -> (v: u8)
        ensures
            v == self.address(),
    {
        match self {
            Register::BitFraming => 0x0d,
            Register::Coll => 0x0e,
            Register::ComIEn => 0x02,
            Register::ComIrq => 0x04,
            Register::Command => 0x01,
            Register::CrcResultH => 0x21,
            Register::CrcResultL => 0x22,
            Register::Demod => 0x19,
            Register::DivIrq => 0x05,
            Register::Error => 0x06,
            Register::FifoData => 0x09,
            Register::FifoLevel => 0x0a,
            Register::ModWidth => 0x24,
            Register::Mode => 0x11,
            Register::ReloadH => 0x2c,
            Register::ReloadL => 0x2d,
            Register::RxMode => 0x13,
            Register::Status1 => 0x07,
            Register::Status2 => 0x08,
            Register::TCountValH => 0x2e,
            Register::TCountValL => 0x2f,
            Register::TMode => 0x2a,
            Register::TPrescaler => 0x2b,
            Register::TxAsk => 0x15,
            Register::TxControl => 0x14,
            Register::TxMode => 0x12,
            Register::Version => 0x37,
        }
    }

    /// Every register address is below 0x40.
    pub proof fn lemma_address_bound(self)
        ensures
            self.address() < 0x40,
    {
    }

    /// The SPI address byte that reads the register: the address shifted left,
    /// with the read bit set.
    pub fn read(&self) -> (r: u8)
        ensures
            r == 2 * self.address() + 128,
    {
        let a = self.value();
        assert((a << 1u8) | 0x80u8 == 2 * a + 128) by (bit_vector)
            requires
                a < 0x40,
        ;
        (a << 1) | 0x80
    }

    /// The SPI address byte that writes the register: the address shifted left.
    pub fn write(&self) -> (r: u8)
        ensures
            r == 2 * self.address(),
    {
        let a = self.value();
        assert((a << 1u8) | 0u8 == 2 * a) by (bit_vector)
            requires
                a < 0x40,
        ;
        (a << 1) | 0
    }
}

/// The commands of the MFRC522.
#[derive(Debug, Clone, Copy, PartialEq, Eq, Structural)]
pub enum Command {
    Idle,
    Mem,
    GenerateRandomID,
    CalcCRC,
    Transmit,
    NoCmdChange,
    Receive,
    Transceive,
    MFAuthent,
    SoftReset,
}

impl Command {
    /// The command codes of the MFRC522 data sheet, no two alike.
    pub proof fn lemma_code_table(self, other: Command)
        ensures
            self.code() == other.code() ==> self == other,
            Command::Idle.code() == 0b0000,
            Command::Mem.code() == 0b0001,
            Command::GenerateRandomID.code() == 0b0010,
            Command::CalcCRC.code() == 0b0011,
            Command::Transmit.code() == 0b0100,
            Command::NoCmdChange.code() == 0b0111,
            Command::Receive.code() == 0b1000,
            Command::Transceive.code() == 0b1100,
            Command::MFAuthent.code() == 0b1110,
            Command::SoftReset.code() == 0b1111,
    {
    }

    pub open spec fn code(self) -> u8 {
        match self {
            Command::Idle => 0b0000,
            Command::Mem => 0b0001,
            Command::GenerateRandomID => 0b0010,
            Command::CalcCRC => 0b0011,
            Command::Transmit => 0b0100,
            Command::NoCmdChange => 0b0111,
            Command::Receive => 0b1000,
            Command::Transceive => 0b1100,
            Command::MFAuthent => 0b1110,
            Command::SoftReset => 0b1111,
        }
    }

    pub open spec fn spec_name(self) -> Seq<char> {
        match self {
            Command::Idle => "Idle"@,
            Command::Mem => "Mem"@,
            Command::GenerateRandomID => "GenerateRandomID"@,
            Command::CalcCRC => "CalcCRC"@,
            Command::Transmit => "Transmit"@,
            Command::NoCmdChange => "NoCmdChange"@,
            Command::Receive => "Receive"@,
            Command::Transceive => "Transceive"@,
            Command::MFAuthent => "MFAuthent"@,
            Command::SoftReset => "SoftReset"@,
        }
    }

    pub fn name(&self) -> (s: &'static str)
        ensures
            s@ == self.spec_name(),
    {
        match self {
            Command::Idle => "Idle",
            Command::Mem => "Mem",
            Command::GenerateRandomID => "GenerateRandomID",
            Command::CalcCRC => "CalcCRC",
            Command::Transmit => "Transmit",
            Command::NoCmdChange => "NoCmdChange",
            Command::Receive => "Receive",
            Command::Transceive => "Transceive",
            Command::MFAuthent => "MFAuthent",
            Command::SoftReset => "SoftReset",
        }
    }

    pub fn value(&self) -> (v: u8)
        ensures
            v == self.code(),
    {
        match self {
            Command::Idle => 0b0000,
            Command::Mem => 0b0001,
            Command::GenerateRandomID => 0b0010,
            Command::CalcCRC => 0b0011,
            Command::Transmit => 0b0100,
            Command::NoCmdChange => 0b0111,
            Command::Receive => 0b1000,
            Command::Transceive => 0b1100,
            Command::MFAuthent => 0b1110,
            Command::SoftReset => 0b1111,
        }
    }

}

/// The errors of an exchange through the MFRC522.
#[derive(Debug, Clone, Copy, PartialEq, Eq, Structural)]
pub enum Mfrc522Error {
    BufferOverflow,
    Collision,
    Crc,
    IncompleteFrame,
    Overheating,
    Parity,
    Protocol,
    Wr,
    Timeout,
    NoMem,
    SPI,
}

impl Mfrc522Error {
    pub open spec fn spec_name(self) -> Seq<char> {
        match self {
            Mfrc522Error::BufferOverflow => "BufferOverflow"@,
            Mfrc522Error::Collision => "Collision"@,
            Mfrc522Error::Crc => "CRC"@,
            Mfrc522Error::IncompleteFrame => "IncompleteFrame"@,
            Mfrc522Error::Overheating => "Overheating"@,
            Mfrc522Error::Parity => "Parity"@,
            Mfrc522Error::Protocol => "Protocol"@,
            Mfrc522Error::Wr => "WR"@,
            Mfrc522Error::Timeout => "Timeout"@,
            Mfrc522Error::NoMem => "NoMem"@,
            Mfrc522Error::SPI => "SPI"@,
        }
    }

    pub fn name(&self) -> (s: &'static str)
        ensures
            s@ == self.spec_name(),
    {
        match self {
            Mfrc522Error::BufferOverflow => "BufferOverflow",
            Mfrc522Error::Collision => "Collision",
            Mfrc522Error::Crc => "CRC",
            Mfrc522Error::IncompleteFrame => "IncompleteFrame",
            Mfrc522Error::Overheating => "Overheating",
            Mfrc522Error::Parity => "Parity",
            Mfrc522Error::Protocol => "Protocol",
            Mfrc522Error::Wr => "WR",
            Mfrc522Error::Timeout => "Timeout",
            Mfrc522Error::NoMem => "NoMem",
            Mfrc522Error::SPI => "SPI",
        }
    }

    /// The error codes the MFRC522 driver reports, no two alike.
    pub proof fn lemma_code_table(self, other: Mfrc522Error)
        ensures
            self.code() == other.code() ==> self == other,
            Mfrc522Error::BufferOverflow.code() == 0x01,
            Mfrc522Error::Collision.code() == 0x02,
            Mfrc522Error::Crc.code() == 0x03,
            Mfrc522Error::IncompleteFrame.code() == 0x04,
            Mfrc522Error::Overheating.code() == 0x05,
            Mfrc522Error::Parity.code() == 0x06,
            Mfrc522Error::Protocol.code() == 0x07,
            Mfrc522Error::Wr.code() == 0x08,
            Mfrc522Error::Timeout.code() == 0x09,
            Mfrc522Error::NoMem.code() == 0x10,
            Mfrc522Error::SPI.code() == 0x11,
    {
    }

    pub open spec fn code(self) -> u8 {
        match self {
            Mfrc522Error::BufferOverflow => 0x01,
            Mfrc522Error::Collision => 0x02,
            Mfrc522Error::Crc => 0x03,
            Mfrc522Error::IncompleteFrame => 0x04,
            Mfrc522Error::Overheating => 0x05,
            Mfrc522Error::Parity => 0x06,
            Mfrc522Error::Protocol => 0x07,
            Mfrc522Error::Wr => 0x08,
            Mfrc522Error::Timeout => 0x09,
            Mfrc522Error::NoMem => 0x10,
            Mfrc522Error::SPI => 0x11,
        }
    }

    pub fn value(&self) -> (v: u8)
        ensures
            v == self.code(),
    {
        match self {
            Mfrc522Error::BufferOverflow => 0x01,
            Mfrc522Error::Collision => 0x02,
            Mfrc522Error::Crc => 0x03,
            Mfrc522Error::IncompleteFrame => 0x04,
            Mfrc522Error::Overheating => 0x05,
            Mfrc522Error::Parity => 0x06,
            Mfrc522Error::Protocol => 0x07,
            Mfrc522Error::Wr => 0x08,
            Mfrc522Error::Timeout => 0x09,
            Mfrc522Error::NoMem => 0x10,
            Mfrc522Error::SPI => 0x11,
        }
    }

}

/// Which error the error register `err` reports, the lowest flag first:
/// protocol, parity, CRC, collision, buffer overflow, temperature, write.
pub open spec fn spec_error_of(err: u8) -> Option<Mfrc522Error> {
    if err & 0x01 != 0 {
        Some(Mfrc522Error::Protocol)
    } else if err & 0x02 != 0 {
        Some(Mfrc522Error::Parity)
    } else if err & 0x04 != 0 {
        Some(Mfrc522Error::Crc)
    } else if err & 0x08 != 0 {
        Some(Mfrc522Error::Collision)
    } else if err & 0x10 != 0 {
        Some(Mfrc522Error::BufferOverflow)
    } else if err & 0x40 != 0 {
        Some(Mfrc522Error::Overheating)
    } else if err & 0x80 != 0 {
        Some(Mfrc522Error::Wr)
    } else {
        None
    }
}

/// Reads the error register: the error it reports, if any.
pub fn check_error(err: u8) -> (r: Result<(), Mfrc522Error>)
    ensures
        spec_error_of(err) matches Some(e) ==> r == Err::<(), Mfrc522Error>(e),
        spec_error_of(err) is None ==> r is Ok,
{
    if err & 0x01 != 0 {
        Err(Mfrc522Error::Protocol)
    } else if err & 0x02 != 0 {
        Err(Mfrc522Error::Parity)
    } else if err & 0x04 != 0 {
        Err(Mfrc522Error::Crc)
    } else if err & 0x08 != 0 {
        Err(Mfrc522Error::Collision)
    } else if err & 0x10 != 0 {
        Err(Mfrc522Error::BufferOverflow)
    } else if err & 0x40 != 0 {
        Err(Mfrc522Error::Overheating)
    } else if err & 0x80 != 0 {
        Err(Mfrc522Error::Wr)
    } else {
        Ok(())
    }
}

/// A register value with none of the flags the error register reports.
pub proof fn lemma_no_error_flags(err: u8)
    requires
        err & 0xDF == 0,
    ensures
        spec_error_of(err) is None,
{
    assert(err & 0x01 == 0 && err & 0x02 == 0 && err & 0x04 == 0 && err & 0x08 == 0 && err & 0x10
        == 0 && err & 0x40 == 0 && err & 0x80 == 0) by (bit_vector)
        requires
            err & 0xDF == 0,
    ;
}

/// The interrupt flags a command waits for: receive and idle for Transceive,
/// idle otherwise.
pub fn irq_wait(command: Command) -> (r: u8)
    ensures
        command == Command::Transceive ==> r == 0x30,
        command != Command::Transceive ==> r == 0x10,
{
    if command.value() == Command::Transceive.value() {
        0x30
    } else {
        0x10
    }
}

/// The BitFraming value that starts a transmission of `bits` bits in the last byte.
pub fn bit_framing(bits: u8) -> (r: u8)
    ensures
        r == (0x80u8 | bits),
{
    0x80 | bits
}

/// What the interrupt register says about a command in progress.
#[derive(Debug, Clone, Copy, PartialEq, Eq, Structural)]
pub enum IrqState {
    /// One of the awaited flags is set.
    Done,
    /// The timer expired.
    TimedOut,
    /// Neither yet.
    Pending,
}

/// Reads the interrupt register `irq` for a command awaiting `wait`.
pub fn irq_state(irq: u8, wait: u8) -> (r: IrqState)
    ensures
        irq & wait != 0 ==> r == IrqState::Done,
        irq & wait == 0 && irq & 0x01 != 0 ==> r == IrqState::TimedOut,
        irq & wait == 0 && irq & 0x01 == 0 ==> r == IrqState::Pending,
{
    if irq & wait != 0 {
        IrqState::Done
    } else if irq & 0x01 != 0 {
        IrqState::TimedOut
    } else {
        IrqState::Pending
    }
}

/// Whether the DivIrq register says the CRC coprocessor has finished.
pub fn crc_done(irq: u8) -> (r: bool)
    ensures
        r == (irq & 0x04 != 0),
{
    irq & 0x04 != 0
}

/// Whether the Command register says a soft reset has finished (power-down bit clear).
pub fn reset_done(command_reg: u8) -> (r: bool)
    ensures
        r == (command_reg & 0x10 == 0),
{
    command_reg & 0x10 == 0
}

/// Whether a version register value names a supported chip (MFRC522 1.0 or 2.0).
pub fn version_supported(version: u8) -> (r: bool)
    ensures
        r == (version == 0x91 || version == 0x92),
{
    version == 0x91 || version == 0x92
}

/// The register writes that set the chip up after a reset: a 10 kHz timer
/// with a 5 ms timeout, 100% ASK, CRC preset 0x6363, and the antenna on.
pub fn init_sequence() -> (r: Vec<(Register, u8)>)
    ensures
        r@ == seq![
            (Register::Demod, 0x5du8),
            (Register::TMode, 0x82u8),
            (Register::TPrescaler, 165u8),
            (Register::ReloadL, 50u8),
            (Register::TxAsk, 0x40u8),
            (Register::Mode, 0x3du8),
            (Register::TxControl, 0xb3u8),
        ],
{
    let r = vec![
        (Register::Demod, 0x4d | (1 << 4)),
        (Register::TMode, 0x0 | (1 << 7) | 0b10),
        (Register::TPrescaler, 165),
        (Register::ReloadL, 50),
        (Register::TxAsk, 1 << 6),
        (Register::Mode, 0x3F & (!0b11u8) | 0b01),
        (Register::TxControl, 0xB0 | 0b11),
    ];
    assert(0x4du8 | (1u8 << 4u8) == 0x5d && 0x0u8 | (1u8 << 7u8) | 0b10u8 == 0x82 && (1u8 << 6u8) == 0x40
        && 0x3Fu8 & (!0b11u8) | 0b01u8 == 0x3d && 0xB0u8 | 0b11u8 == 0xb3) by (bit_vector);
    assert(r@ =~= seq![
        (Register::Demod, 0x5du8),
        (Register::TMode, 0x82u8),
        (Register::TPrescaler, 165u8),
        (Register::ReloadL, 50u8),
        (Register::TxAsk, 0x40u8),
        (Register::Mode, 0x3du8),
        (Register::TxControl, 0xb3u8),
    ]);
    r
}

/// The exclusive or of the bytes of `s`: the block check character of a UID.
pub open spec fn xor_all(s: Seq<u8>) -> u8
    decreases s.len(),
{
    if s.len() == 0 {
        0
    } else {
        xor_all(s.drop_last()) ^ s.last()
    }
}

/// The block check character of `uuid`.
pub fn block_check(uuid: &Vec<u8>) -> (r: u8)
    ensures
        r == xor_all(uuid@),
{
    let mut serial: u8 = 0;
    let mut i: usize = 0;
    while i < uuid.len()
        invariant
            i <= uuid@.len(),
            serial == xor_all(uuid@.take(i as int)),
        decreases uuid@.len() - i,
    {
        assert(uuid@.take(i + 1).drop_last() =~= uuid@.take(i as int));
        serial = serial ^ uuid[i];
        i = i + 1;
    }
    assert(uuid@.take(uuid@.len() as int) =~= uuid@);
    serial
}

/// The SELECT frame of cascade level `cascade`, before its CRC: the level,
/// NVB 0x70, the UID and its check byte.
pub fn select_frame(cascade: u8, uuid: &Vec<u8>) -> (r: Vec<u8>)
    ensures
        r@ == seq![cascade, 0x70u8] + uuid@ + seq![xor_all(uuid@)],
{
    let mut tx: Vec<u8> = vec![cascade, 0x70];
    append_bytes(&mut tx, uuid.as_slice());
    let bcc = block_check(uuid);
    tx.push(bcc);
    assert(tx@ =~= seq![cascade, 0x70u8] + uuid@ + seq![xor_all(uuid@)]);
    tx
}

/// The ANTICOLLISION frame of cascade level `cascade`: the level, NVB 0x20,
/// the known part of the UID and, when there is one, its check byte.
pub fn anticoll_frame(cascade: u8, uuid: &Vec<u8>) -> (r: Vec<u8>)
    ensures
        uuid@.len() == 0 ==> r@ == seq![cascade, 0x20u8],
        uuid@.len() > 0 ==> r@ == seq![cascade, 0x20u8] + uuid@ + seq![xor_all(uuid@)],
{
    let mut tx: Vec<u8> = vec![cascade, 0x20];
    append_bytes(&mut tx, uuid.as_slice());
    let bcc = block_check(uuid);
    if uuid.len() > 0 {
        tx.push(bcc);
    }
    assert(uuid@.len() == 0 ==> tx@ =~= seq![cascade, 0x20u8]);
    assert(uuid@.len() > 0 ==> tx@ =~= seq![cascade, 0x20u8] + uuid@ + seq![xor_all(uuid@)]);
    tx
}

/// The MFAuthent frame for block `addr` of card `uuid` with `key`: the
/// command, the block, the key and the UID.
pub fn auth_frame(keys: &MifareKeys, auth_mode: u8, addr: u8, uuid: &Vec<u8>, key: MifareAuthKey) -> (r: Vec<u8>)
    ensures
        r@ == seq![auth_mode, addr] + keys.spec_key(key) + uuid@,
{
    let mut tx: Vec<u8> = vec![auth_mode, addr];
    let k = keys.key_bytes(key);
    append_bytes(&mut tx, k.as_slice());
    append_bytes(&mut tx, uuid.as_slice());
    assert(tx@ =~= seq![auth_mode, addr] + keys.spec_key(key) + uuid@);
    tx
}

/// The frame that reads block `addr`, before its CRC.
pub fn read_frame(addr: u8) -> (r: Vec<u8>)
    ensures
        r@ == seq![0x30u8, addr],
{
    let r = vec![PICC::READ.value(), addr];
    assert(r@ =~= seq![0x30u8, addr]);
    r
}

/// The frame that announces a write of block `addr` (before its CRC), and the
/// 16 bytes written; fewer than 16 bytes of data are refused.
pub fn write_frames(addr: u8, data: &Vec<u8>) -> (r: Result<(Vec<u8>, Vec<u8>), String>)
    ensures
        data@.len() < 16 ==> r is Err,
        data@.len() >= 16 ==> (r matches Ok((cmd, block)) && cmd@ == seq![0xA0u8, addr] && block@
            == data@.take(16)),
{
    let tx = vec![PICC::WRITE.value(), addr];
    if data.len() < 16 {
        return Err("write_data error: Invalid stream size".to_owned());
    }
    let block = copy_range(data.as_slice(), 0, 16);
    assert(tx@ =~= seq![0xA0u8, addr]);
    assert(block@ =~= data@.take(16));
    Ok((tx, block))
}

/// The 16 bytes of a block in the answer to a read (the answer ends with a CRC).
pub fn read_answer_block(answer: &Vec<u8>) -> (r: Vec<u8>)
    requires
        answer@.len() >= 16,
    ensures
        r@ == answer@.take(16),
{
    let r = copy_range(answer.as_slice(), 0, 16);
    assert(r@ =~= answer@.take(16));
    r
}

/// Reads the answer to an ANTICOLLISION: whether the UID is complete at this
/// level (the answer does not start with the cascade tag 0x88), and the UID
/// bytes it carries (without the tag and the check byte).
pub fn uid_fragment(answer: &Vec<u8>) -> (r: (bool, Vec<u8>))
    requires
        answer@.len() >= 1,
        answer@[0] == 0x88 ==> answer@.len() >= 2,
    ensures
        answer@[0] == 0x88 ==> !r.0 && r.1@ == answer@.subrange(1, answer@.len() - 1),
        answer@[0] != 0x88 ==> r.0 && r.1@ == answer@.subrange(0, answer@.len() - 1),
{
    let n = answer.len();
    if answer[0] == 0x88 {
        (false, copy_range(answer.as_slice(), 1, n - 1))
    } else {
        (true, copy_range(answer.as_slice(), 0, n - 1))
    }
}

/// What follows the selection of a card at a cascade level.
#[derive(Debug, Clone, Copy, PartialEq, Eq, Structural)]
pub enum CascadeNext {
    /// The UID is complete: the card is selected.
    Selected,
    /// The UID goes on: run the anticollision of this level (its PICC code).
    NextLevel(u8),
    /// The UID goes on past the second level, which the reader does not follow.
    Unsupported,
}

/// What follows the selection at cascade level `level` (1 or 2) of a UID that
/// is `complete` or not: a complete UID is selected; the first level goes on
/// to the second (ANTICOLL2); a UID longer than two levels is not followed.
pub fn after_select(level: u8, complete: bool) -> (r: CascadeNext)
    ensures
        complete ==> r == CascadeNext::Selected,
        !complete && level == 1 ==> r == CascadeNext::NextLevel(0x95),
        !complete && level != 1 ==> r == CascadeNext::Unsupported,
{
    if complete {
        CascadeNext::Selected
    } else if level == 1 {
        CascadeNext::NextLevel(PICC::ANTICOLL2.value())
    } else {
        CascadeNext::Unsupported
    }
}

/// Whether an ANTICOLLISION answer can be read: it has a first byte, and
/// after the cascade tag at least the check byte.
pub open spec fn anticoll_readable(a: Seq<u8>) -> bool {
    a.len() >= 1 && (a[0] == 0x88 ==> a.len() >= 2)
}

/// The UID bytes an ANTICOLLISION answer carries (without the cascade tag
/// and the check byte).
pub open spec fn uid_part(a: Seq<u8>) -> Seq<u8> {
    if a[0] == 0x88 {
        a.subrange(1, a.len() - 1)
    } else {
        a.subrange(0, a.len() - 1)
    }
}

/// A call of the reader while a card is searched.
pub enum SearchCall {
    /// ANTICOLLISION at the cascade level of this PICC code, with the UID bytes known so far.
    Anticoll(u8, Vec<u8>),
    /// SELECT at the cascade level of this PICC code, with the UID bytes known so far.
    Select(u8, Vec<u8>),
}

/// The search of a card: the cascade level (1 or 2) and its PICC code, the
/// UID bytes known so far, whether they are the whole UID, and whether the
/// search waits on a SELECT (else on an ANTICOLLISION).
pub struct SearchRun {
    pub level: u8,
    pub cascade: u8,
    pub uid: Vec<u8>,
    pub complete: bool,
    pub selecting: bool,
}

/// Why a search found no card.
pub enum SearchFailure {
    /// The ANTICOLLISION of this level failed with this error.
    Anticoll(u8, String),
    /// The SELECT of this level failed with this error.
    Select(u8, String),
    /// The UID goes on past the second level, which is not followed.
    Unsupported,
}

/// What the search of a card does next: call the reader and hand its answer
/// to `search_answer`; or end with the UID and the SELECT answer (SAK) of
/// the card found; or end with why none was found.
pub enum SearchStep {
    Call(SearchRun, SearchCall),
    Found(Vec<u8>, Vec<u8>),
    Failed(SearchFailure),
}

/// `r` makes `call` (its PICC code and UID bytes) and waits as `run`
/// describes.
pub open spec fn is_search_call(
    r: SearchStep,
    level: u8,
    cascade: u8,
    uid: Seq<u8>,
    complete: bool,
    selecting: bool,
) -> bool {
    match r {
        SearchStep::Call(run, c) => run.level == level && run.cascade == cascade && run.uid@ == uid
            && run.complete == complete && run.selecting == selecting && match c {
            SearchCall::Anticoll(code, u) => !selecting && code == cascade && u@ == uid,
            SearchCall::Select(code, u) => selecting && code == cascade && u@ == uid,
        },
        _ => false,
    }
}

/// The search of a card begins with the ANTICOLLISION of the first level
/// (0x93), no UID bytes known.
pub fn search_start() -> (r: SearchStep)
    ensures
        is_search_call(r, 1, 0x93, Seq::empty(), false, false),
{
    let run = SearchRun { level: 1, cascade: PICC::ANTICOLL1.value(), uid: Vec::new(), complete: false, selecting: false };
    SearchStep::Call(run, SearchCall::Anticoll(PICC::ANTICOLL1.value(), Vec::new()))
}

/// What follows the reader's answer to the call the search waited on:
/// - an ANTICOLLISION error ends the search with it; an answer adds its UID
///   bytes (see `uid_part`) and selects with them, at the same level;
/// - a SELECT error ends the search with it; where the UID is complete the
///   card is found, with the SELECT answer; at the first level the search
///   goes on with the ANTICOLLISION of the second (0x95); past it, the search
///   fails as unsupported.
pub fn search_answer(run: SearchRun, answer: Result<Vec<u8>, String>) -> (r: SearchStep)
    requires
        !run.selecting ==> (answer matches Ok(a) ==> anticoll_readable(a@)),
    ensures
        !run.selecting ==> match answer {
            Err(e) => r matches SearchStep::Failed(SearchFailure::Anticoll(l, m)) && l == run.level && m@ == e@,
            Ok(a) => is_search_call(r, run.level, run.cascade, run.uid@ + uid_part(a@), a@[0] != 0x88, true),
        },
        run.selecting ==> match answer {
            Err(e) => r matches SearchStep::Failed(SearchFailure::Select(l, m)) && l == run.level && m@ == e@,
            Ok(sak) => if run.complete {
                r matches SearchStep::Found(u, k) && u@ == run.uid@ && k@ == sak@
            } else if run.level == 1 {
                is_search_call(r, 2, 0x95, run.uid@, false, false)
            } else {
                r matches SearchStep::Failed(SearchFailure::Unsupported)
            },
        },
{
    if !run.selecting {
        match answer {
            Err(e) => SearchStep::Failed(SearchFailure::Anticoll(run.level, e)),
            Ok(a) => {
                let (complete, part) = uid_fragment(&a);
                let mut uid = run.uid;
                append_bytes(&mut uid, part.as_slice());
                let u = copy_range(uid.as_slice(), 0, uid.len());
                assert(u@ =~= uid@);
                let next = SearchRun { level: run.level, cascade: run.cascade, uid, complete, selecting: true };
                SearchStep::Call(next, SearchCall::Select(run.cascade, u))
            },
        }
    } else {
        match answer {
            Err(e) => SearchStep::Failed(SearchFailure::Select(run.level, e)),
            Ok(sak) => match after_select(run.level, run.complete) {
                CascadeNext::Selected => SearchStep::Found(run.uid, sak),
                CascadeNext::NextLevel(code) => {
                    let u = copy_range(run.uid.as_slice(), 0, run.uid.len());
                    assert(u@ =~= run.uid@);
                    let next = SearchRun { level: 2, cascade: code, uid: run.uid, complete: false, selecting: false };
                    SearchStep::Call(next, SearchCall::Anticoll(code, u))
                },
                CascadeNext::Unsupported => SearchStep::Failed(SearchFailure::Unsupported),
            },
        }
    }
}

} // verus!
