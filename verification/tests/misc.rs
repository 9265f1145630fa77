use acontrol::fingerprint::gt521fx::{poll_step, FingerPoll, PollStage, Response};
use acontrol::system::mifare_key_option;
use acontrol::text::parse_key_bytes;
use acontrol::audio::sounds::{BuzzerTone, Sounds, Tone};
use acontrol::audio::{audio_by_name, AudioKind};
use acontrol::display::neopixel::{animation_tick, plan_animation, test_hardware_plan, AnimationPlan, TickOutcome};
use acontrol::display::{Animation, AnimationColor};
use acontrol::log::{log_by_name, should_log, LogType, LogUtils};
use acontrol::nfc::{nfcreader_by_name, NfcReaderKind};
use acontrol::persist::{first_card, persist_by_name, Card, PersistKind};
use acontrol::service::IronWebService;
use acontrol::server::card_names_are_text;
use acontrol::system::{acontrol_system_bt_query_answered, card_check, CardCheck, SystemAction};
use acontrol::text::{i64_to_string, parse_u16, trim_end_string, u64_to_string};

#[test]
fn numbers_in_text() {
    assert_eq!(parse_u16("123"), Some(123));
    assert_eq!(parse_u16("+7"), Some(7));
    assert_eq!(parse_u16("65535"), Some(65535));
    assert_eq!(parse_u16("65536"), None);
    assert_eq!(parse_u16(""), None);
    assert_eq!(parse_u16("+"), None);
    assert_eq!(parse_u16("1a"), None);
    assert_eq!(parse_u16("-1"), None);
    assert_eq!(u64_to_string(0), "0");
    assert_eq!(u64_to_string(18446744073709551615), "18446744073709551615");
    assert_eq!(i64_to_string(-42), "-42");
}

#[test]
fn text_from_bytes() {
    assert_eq!(card_check(&b"abc".to_vec()), CardCheck::Unsigned);
    assert_eq!(card_check(&vec![0xC3]), CardCheck::Unreadable);
    let named = |name: Vec<u8>| vec![Card { id: 1, uuid: vec![1], name }];
    assert!(card_names_are_text(&named("\u{e9}t\u{e9}".as_bytes().to_vec())));
    assert!(!card_names_are_text(&named(vec![0xff])));
    let granted = acontrol_system_bt_query_answered(&b"ClOsE \n\t".to_vec());
    assert_eq!(granted.len(), 5);
    assert_eq!(acontrol_system_bt_query_answered(&vec![b'c', 0xff, b'l']), vec![SystemAction::ClearDisplay]);
}

#[test]
fn log_levels_and_lines() {
    assert!(should_log(LogType::Error, LogType::Info));
    assert!(should_log(LogType::Info, LogType::Info));
    assert!(!should_log(LogType::Debug, LogType::Warning));
    assert_eq!(LogUtils::format_line("2020-01-01", LogType::Warning, "hi"), "2020-01-01 - [Warning] - hi");
}

#[test]
fn drivers_by_name() {
    assert_eq!(audio_by_name("buzzer"), Some(AudioKind::Buzzer));
    assert_eq!(audio_by_name("speaker"), None);
    assert_eq!(nfcreader_by_name("pn532_spi"), Some(NfcReaderKind::Pn532Spi));
    assert_eq!(nfcreader_by_name("mfrc522"), Some(NfcReaderKind::Mfrc522));
    assert_eq!(nfcreader_by_name("pn532"), None);
    assert_eq!(persist_by_name("sqlite"), Some(PersistKind::Sqlite));
}

#[test]
fn melodies() {
    let r = Sounds::play_sound(&vec![Tone::NOTE_A4, Tone::NOTE_NULL], &vec![100, 50]).unwrap();
    assert_eq!(r, vec![BuzzerTone { freq: 440, period: 100 }, BuzzerTone { freq: 0, period: 50 }]);
    assert_eq!(
        Sounds::play_sound(&vec![Tone::NOTE_A4], &vec![]),
        Err("tones and periods differs in length.".to_string())
    );
    let r = Sounds::play_sound(&vec![Tone::NOTE_A4, Tone::NOTE_B4, Tone::NOTE_C5], &vec![100, 0, 30]).unwrap();
    assert_eq!(r, vec![BuzzerTone { freq: 440, period: 100 }, BuzzerTone { freq: 523, period: 30 }]);
    let m = Sounds::supermario();
    assert_eq!(m.tones.len(), 10);
    assert_eq!(m.tones.len(), m.periods.len());
    assert_eq!(Sounds::piratescaribean().tones.len(), 37);
}

#[test]
fn animations() {
    assert_eq!(plan_animation(Animation::NoAnimation, AnimationColor::Red, 0).err(), Some("Invalid animation".to_string()));
    match plan_animation(Animation::Blink, AnimationColor::Green, 3).unwrap() {
        AnimationPlan::Blink(a) => {
            assert_eq!(a.repeat, 6);
            assert!(!a.infinity);
            assert_eq!((a.red, a.green, a.blue), (0, 255, 0));
        },
        _ => panic!("expected a blink"),
    }
    match test_hardware_plan() {
        AnimationPlan::Spinner(a, d) => {
            assert_eq!(d, 5);
            assert_eq!(a.blue, 255);
        },
        _ => panic!("expected a spinner"),
    }
    assert_eq!(animation_tick(true, false, Ok(50)), TickOutcome::Continue(50));
    assert_eq!(animation_tick(true, true, Ok(50)), TickOutcome::Finish);
    assert_eq!(animation_tick(true, false, Ok(-1)), TickOutcome::Finish);
    assert_eq!(animation_tick(true, false, Err("e".to_string())), TickOutcome::Fail("e".to_string()));
}

#[test]
fn records_and_services() {
    assert!(first_card(Vec::new()).is_err());
    let c = first_card(vec![Card { id: 4, uuid: vec![1], name: b"n".to_vec() }]).unwrap();
    assert_eq!(c.id, 4);
    let mut s = IronWebService::new();
    s.port(8080);
    assert_eq!(s.signature(), "Iron WebService running at port 8080");
}

#[test]
fn mifare_key_text() {
    assert_eq!(mifare_key_option(None), Some(vec![0xFF; 6]));
    assert_eq!(mifare_key_option(Some("0xA1,0xB2,0xc3,0xD4,0xe5,0xF6")), Some(vec![0xA1, 0xB2, 0xC3, 0xD4, 0xE5, 0xF6]));
    assert_eq!(mifare_key_option(Some("0xFF,0xFF")), None);
    assert_eq!(mifare_key_option(Some("0xFF,0xFF,0xFF,0xFF,0xFF,0xGG")), None);
    assert_eq!(parse_key_bytes("0x10"), Some(vec![0x01]));
    assert_eq!(parse_key_bytes("0x00"), None);
    assert_eq!(parse_key_bytes(""), None);
    assert_eq!(parse_key_bytes("+F,7"), Some(vec![0x0F, 0x07]));
    assert_eq!(parse_key_bytes("0x1FF"), None);
}

#[test]
fn sensor_watch_steps() {
    let mut ack = Response::new();
    ack.response = 0x30;
    let mut nack = Response::new();
    nack.response = 0x31;
    assert_eq!(poll_step(PollStage::Capture, Some(&ack)), FingerPoll::Identify);
    assert_eq!(poll_step(PollStage::Capture, Some(&nack)), FingerPoll::NoFinger);
    assert_eq!(poll_step(PollStage::Identify, Some(&ack)), FingerPoll::Registered);
    assert_eq!(poll_step(PollStage::Identify, Some(&nack)), FingerPoll::NotRegistered);
    assert_eq!(poll_step(PollStage::Capture, None), FingerPoll::Failed);
}

#[test]
fn driver_kinds_report_their_names() {
    assert_eq!(audio_by_name("buzzer").unwrap().signature(), "Buzzer Audio Module");
    assert_eq!(nfcreader_by_name("mfrc522").unwrap().signature(), "MFRC522 Mifare Reader Module");
    assert_eq!(nfcreader_by_name("pn532_spi").unwrap().signature(), "PN532 NFC Reader Module");
    assert_eq!(acontrol::bt::bluetooth_by_name("bluez").unwrap().signature(), "BlueZ bluetooth module");
    assert_eq!(acontrol::fingerprint::fingerprint_by_name("gt521fx").unwrap().signature(), "gt521fx Fingerprint Module");
    assert_eq!(acontrol::display::display_by_name("neopixel").unwrap().signature(), "NeoPixel display module");
    let params = std::collections::HashMap::new();
    assert_eq!(log_by_name("console", LogType::Info, &params).unwrap().0.signature(), "Console Log Module");
    assert_eq!(log_by_name("file", LogType::Info, &params).unwrap().0.signature(), "File Log Module");
}

#[test]
fn trailing_white_space_is_trimmed() {
    assert_eq!(trim_end_string("close \t\r\n"), "close");
    assert_eq!(trim_end_string("close\u{3000}\u{a0}\u{2009}"), "close");
    assert_eq!(trim_end_string("close\u{200b}"), "close\u{200b}");
    assert_eq!(trim_end_string("  open"), "  open");
    assert_eq!(trim_end_string(" \n"), "");
}
