use acontrol::fingerprint::gt521fx::{calc_crc, send_command_packet, Command as GtCommand, OpenDataPacket, PacketError, Response};
use acontrol::nfc::mfrc522::{
    after_select, check_error, search_answer, search_start, uid_fragment, CascadeNext, Mfrc522Error, SearchCall, SearchFailure,
    SearchStep,
};
use acontrol::nfc::mifare::{read_plan, run_step, trailer_addresses, write_plan, MifareOp, RunStep};
use acontrol::nfc::pn532_spi::{
    check_status, command_frame, command_frame_encodable, exchange_reply_is_readable, decode_read, read_request, reverse_bits, reverse_byte, status_request, write_request,
    Command, Frame, FrameType, Pn532Error, Pn532Status,
};
use std::collections::HashMap;

#[test]
fn bit_reversal() {
    assert_eq!(reverse_byte(0x01), 0x80);
    assert_eq!(reverse_byte(0xD4), 0x2B);
    assert_eq!(reverse_byte(reverse_byte(0x5A)), 0x5A);
    let mut v = vec![0x02, 0x00];
    assert_eq!(reverse_bits(&mut v), Ok(true));
    assert_eq!(v, vec![0x40, 0x00]);
    let mut empty: Vec<u8> = Vec::new();
    assert_eq!(reverse_bits(&mut empty), Err(Pn532Error::InvalidBufferLength));
    assert_eq!(status_request(), vec![0x40, 0x00]);
}

#[test]
fn firmware_version_frame() {
    let f = command_frame(Command::GetFirmwareVersion, None).unwrap();
    assert_eq!(f.bytes(), &vec![0x00, 0x00, 0xFF, 0x02, 0xFE, 0xD4, 0x02, 0x2A, 0x00]);
    let w = write_request(&f);
    assert_eq!(w[0], 0x80);
    assert_eq!(w.len(), 10);
    let f = Frame::from_vec(&vec![0x14, 0x01, 0x14, 0x01]).unwrap();
    let b = f.bytes();
    let sum: u32 = b[5..b.len() - 2].iter().map(|x| *x as u32).sum::<u32>() + b[b.len() - 2] as u32;
    assert_eq!(sum % 256, 0);
    assert_eq!((b[3] as u32 + b[4] as u32) % 256, 0);
}

#[test]
fn reading_frames() {
    assert_eq!(read_request(Some(0)), Err(Pn532Error::InvalidBufferLength));
    assert_eq!(read_request(Some(2)).unwrap(), vec![0xC0, 0xC0]);
    assert_eq!(read_request(None).unwrap().len(), 256);
    assert!(decode_read(Vec::new()).is_err());
    let raw: Vec<u8> = vec![0x01, 0x00, 0x00, 0xFF, 0x00, 0xFF, 0x00].into_iter().map(reverse_byte).collect();
    let f = decode_read(raw).unwrap();
    assert_eq!(f.frame_type(), FrameType::Ack);
    assert_eq!(check_status(&vec![0x80, 0x00]), Err(Pn532Error::NoData(0x01, 0x00)));
    assert_eq!(check_status(&vec![0x80, 0x80]), Ok(()));
}

#[test]
fn gt521fx_packets() {
    assert_eq!(calc_crc(&[0x55, 0xAA, 0x01, 0x00]), 0x0100);
    let p = send_command_packet(GtCommand::Open, 0);
    assert_eq!(p, vec![0x55, 0xAA, 0x01, 0x00, 0, 0, 0, 0, 0x01, 0x00, 0x01, 0x01]);
    let mut answer = vec![0x55, 0xAA, 0x01, 0x00, 0x05, 0, 0, 0, 0x30, 0x00, 0, 0];
    let crc = calc_crc(&answer[0..9]);
    answer[10] = (crc & 0xff) as u8;
    answer[11] = (crc >> 8) as u8;
    answer.push(0x99);
    let mut r = Response::new();
    assert_eq!(r.parser(&mut answer), Ok(true));
    assert_eq!(r.parameter, 5);
    assert_eq!(r.response, 0x30);
    assert_eq!(answer, vec![0x99]);
    let mut bad = vec![0x00; 12];
    assert_eq!(Response::new().parser(&mut bad), Err(PacketError::InvalidSignature));
    assert_eq!(OpenDataPacket::new().size(), 30);
}

#[test]
fn mfrc522_errors_and_uids() {
    assert_eq!(check_error(0x00), Ok(()));
    assert_eq!(check_error(0x04), Err(Mfrc522Error::Crc));
    assert_eq!(check_error(0x06), Err(Mfrc522Error::Parity));
    assert_eq!(check_error(0x80), Err(Mfrc522Error::Wr));
    assert_eq!(uid_fragment(&vec![0x88, 1, 2, 3, 0xAA]), (false, vec![1, 2, 3]));
    assert_eq!(uid_fragment(&vec![4, 5, 6, 7, 0xAA]), (true, vec![4, 5, 6, 7]));
}

fn run(ops: &Vec<MifareOp>, card: &mut HashMap<u8, Vec<u8>>) -> Vec<u8> {
    let mut out = Vec::new();
    for op in ops {
        match op {
            MifareOp::Auth(_) => {},
            MifareOp::Read(a) => out.extend_from_slice(card.get(a).map(|v| v.as_slice()).unwrap_or(&[0u8; 16])),
            MifareOp::Write(a, data) => {
                card.insert(*a, data.clone());
            },
        }
    }
    out
}

#[test]
fn what_is_written_reads_back() {
    let mut card = HashMap::new();
    let data: Vec<u8> = (0u8..20).collect();
    let (ops, count) = write_plan(4, &data);
    assert_eq!(count, 2);
    run(&ops, &mut card);
    let read = run(&read_plan(4, 1), &mut card);
    assert_eq!(&read[..20], &data[..]);
    assert_eq!(&read[20..32], &[0u8; 12]);
    let sig = b"ACONTROL_CARD\0\0\0".to_vec();
    let (ops, _) = write_plan(1, &sig);
    run(&ops, &mut card);
    assert_eq!(run(&read_plan(1, 0), &mut card), sig);
    assert_eq!(trailer_addresses().len(), 16);
}

#[test]
fn a_command_packet_parses_back() {
    let mut p = send_command_packet(GtCommand::CmosLed, 0x0102_0304);
    let mut r = Response::new();
    assert_eq!(r.parser(&mut p), Ok(false));
    assert_eq!(r.device_id, 1);
    assert_eq!(r.parameter, 0x0102_0304);
    assert_eq!(r.response, 0x12);
    assert!(p.is_empty());
}

#[test]
fn frames_that_can_be_sent_and_read() {
    assert!(command_frame_encodable(Command::GetFirmwareVersion, None));
    assert!(!command_frame_encodable(Command::GetFirmwareVersion, Some(&[0x2A])));
    let data = vec![0u8; 254];
    assert!(!command_frame_encodable(Command::Diagnose, Some(&data[..])));
    let short = Frame::from_bytes(vec![0x01, 0x00, 0x00, 0xFF, 0x00]);
    assert!(!short.is_classifiable());
    let reply = Frame::from_bytes(vec![0x01, 0x00, 0x00, 0xFF, 0x04, 0xFC, 0xD5, 0x41, 0x00, 0xEA, 0x00]);
    assert!(reply.is_readable());
    assert!(exchange_reply_is_readable(&reply, 11));
    assert!(!exchange_reply_is_readable(&reply, 27));
    let bad_status = Frame::from_bytes(vec![0x01, 0x00, 0x00, 0xFF, 0x04, 0xFC, 0xD5, 0x41, 0x7F, 0xEA, 0x00]);
    assert!(!exchange_reply_is_readable(&bad_status, 11));
}

#[test]
fn cascade_levels() {
    assert_eq!(after_select(1, true), CascadeNext::Selected);
    assert_eq!(after_select(1, false), CascadeNext::NextLevel(0x95));
    assert_eq!(after_select(2, false), CascadeNext::Unsupported);
}

#[test]
fn status_codes_read_back() {
    assert_eq!(Pn532Status::from_code(0x00), Some(Pn532Status::Success));
    assert_eq!(Pn532Status::from_code(0x14), Some(Pn532Status::InvalidAuth));
    assert_eq!(Pn532Status::from_code(0x99), Some(Pn532Status::GenericError));
    assert_eq!(Pn532Status::from_code(0x08), None);
    assert_eq!(Pn532Status::InvalidAuth.value(), 0x14);
}

/// Runs `ops` against blocks in memory, failing the exchange at `fail`.
fn run_against(ops: &Vec<MifareOp>, blocks: &HashMap<u8, Vec<u8>>, fail: Option<usize>) -> (Result<Vec<u8>, String>, usize) {
    let mut answers: Vec<Result<Vec<u8>, String>> = Vec::new();
    loop {
        match run_step(ops, &answers) {
            RunStep::Next(i) => {
                let answer = if fail == Some(i) {
                    Err(format!("exchange {} failed", i))
                } else {
                    match &ops[i] {
                        MifareOp::Read(a) => Ok(blocks[a].clone()),
                        _ => Ok(Vec::new()),
                    }
                };
                answers.push(answer);
            },
            RunStep::Done(r) => return (r, answers.len()),
        }
    }
}

#[test]
fn a_read_joins_its_blocks_in_order() {
    let mut blocks = HashMap::new();
    blocks.insert(1u8, vec![1u8; 16]);
    blocks.insert(2u8, vec![2u8; 16]);
    let ops = read_plan(1, 1);
    let (r, n) = run_against(&ops, &blocks, None);
    let mut expected = vec![1u8; 16];
    expected.extend(vec![2u8; 16]);
    assert_eq!(r, Ok(expected));
    assert_eq!(n, 4);
    let (r, n) = run_against(&ops, &blocks, Some(2));
    assert_eq!(r, Err("exchange 2 failed".to_string()));
    assert_eq!(n, 3);
    assert!(matches!(run_step(&ops, &Vec::new()), RunStep::Next(0)));
}

/// Searches a card whose reader answers each ANTICOLLISION with the next of
/// `anticolls` and each SELECT with `sak`; gives the end and the calls made.
fn search(anticolls: Vec<Result<Vec<u8>, String>>, sak: Vec<u8>) -> (SearchStep, Vec<String>) {
    let mut anticolls = anticolls.into_iter();
    let mut calls = Vec::new();
    let mut step = search_start();
    loop {
        match step {
            SearchStep::Call(run, call) => {
                let answer = match call {
                    SearchCall::Anticoll(code, uid) => {
                        calls.push(format!("anticoll {:x} {:?}", code, uid));
                        anticolls.next().unwrap()
                    },
                    SearchCall::Select(code, uid) => {
                        calls.push(format!("select {:x} {:?}", code, uid));
                        Ok(sak.clone())
                    },
                };
                step = search_answer(run, answer);
            },
            end => return (end, calls),
        }
    }
}

#[test]
fn card_search_follows_the_cascade() {
    let (end, calls) = search(vec![Ok(vec![1, 2, 3, 4, 4])], vec![0x08]);
    assert!(matches!(end, SearchStep::Found(ref u, ref k) if *u == vec![1, 2, 3, 4] && *k == vec![0x08]));
    assert_eq!(calls, vec!["anticoll 93 []".to_string(), "select 93 [1, 2, 3, 4]".to_string()]);

    let (end, calls) = search(vec![Ok(vec![0x88, 1, 2, 3, 0]), Ok(vec![4, 5, 6, 7, 0])], vec![0x04]);
    assert!(matches!(end, SearchStep::Found(ref u, _) if *u == vec![1, 2, 3, 4, 5, 6, 7]));
    assert_eq!(calls[2], "anticoll 95 [1, 2, 3]".to_string());
    assert_eq!(calls[3], "select 95 [1, 2, 3, 4, 5, 6, 7]".to_string());

    let (end, _) = search(vec![Ok(vec![0x88, 1, 2, 3, 0]), Ok(vec![0x88, 5, 6, 7, 0])], vec![0x04]);
    assert!(matches!(end, SearchStep::Failed(SearchFailure::Unsupported)));

    let (end, calls) = search(vec![Err("timeout".to_string())], vec![]);
    assert!(matches!(end, SearchStep::Failed(SearchFailure::Anticoll(1, ref e)) if e == "timeout"));
    assert_eq!(calls.len(), 1);
}
