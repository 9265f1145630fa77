use acontrol::audio::AudioEvent;
use acontrol::bt::BluetoothDevice;
use acontrol::display::{Animation, AnimationColor, AnimationType};
use acontrol::fingerprint::{Fingerprint, FingerprintData, FingerprintState};
use acontrol::nfc::{CardType, NfcReader};
use acontrol::persist::{Card, Persist};
use acontrol::system::{
    acontrol_system_bt_query_answered, acontrol_system_find_bt_device, acontrol_system_find_finger,
    acontrol_system_find_tag, acontrol_system_fingerprint_delete_all, acontrol_system_fingerprint_enroll_result,
    acontrol_system_fingerprint_start_enroll, acontrol_system_set_bluetooth_state, acontrol_system_set_mifare_keys,
    acontrol_system_set_nfc_state, acontrol_system_tag_answer, card_check, feedback_actions, mifare_keys_taken,
    nfc_card_signature, query_says_close, read_feedback, write_feedback, AControlSystem, BluetoothSystemState,
    CardCheck, DisplayMessage, Feedback, NFCSystemState, Params, ScriptKind, SystemAction, TagAnswer, TagCall,
    TagStep,
};
use std::collections::HashMap;

fn spinner() -> SystemAction {
    SystemAction::Show(Animation::MaterialSpinner, AnimationColor::Orange, AnimationType::Waiting, DisplayMessage::Waiting, 0)
}

fn granted() -> Vec<SystemAction> {
    vec![
        SystemAction::Play(AudioEvent::Granted),
        SystemAction::Show(Animation::Blink, AnimationColor::Green, AnimationType::Success, DisplayMessage::Done, 3),
        SystemAction::WhenAnimationEndsShowWaiting,
        SystemAction::RunScript(ScriptKind::Granted),
        SystemAction::ClearDisplay,
    ]
}

fn denied() -> Vec<SystemAction> {
    vec![
        SystemAction::Play(AudioEvent::Denied),
        SystemAction::Show(Animation::Blink, AnimationColor::Red, AnimationType::Error, DisplayMessage::Done, 3),
        SystemAction::WhenAnimationEndsShowWaiting,
        SystemAction::RunScript(ScriptKind::Denied),
        SystemAction::ClearDisplay,
    ]
}

/// A card reader that holds the blocks of one card in memory.
struct MemoryReader {
    blocks: HashMap<u8, Vec<u8>>,
    fail_read: bool,
    fail_write: bool,
    fail_restore: bool,
    formatted: usize,
}

impl MemoryReader {
    fn new() -> Self {
        MemoryReader { blocks: HashMap::new(), fail_read: false, fail_write: false, fail_restore: false, formatted: 0 }
    }
}

impl NfcReader for MemoryReader {
    fn init(&mut self) -> Result<(), String> {
        Ok(())
    }
    fn unload(&mut self) -> Result<(), String> {
        Ok(())
    }
    fn find_tag<F: Fn(CardType, Vec<u8>) -> bool + Send + 'static>(&mut self, func: F) -> Result<(), String> {
        func(CardType::Mifare, vec![1, 2, 3, 4]);
        Ok(())
    }
    fn set_auth_keys(&mut self, key_a: &Vec<u8>, key_b: &Vec<u8>) -> Result<(), String> {
        if key_a.len() == 6 && key_b.len() == 6 { Ok(()) } else { Err("Invalid key".to_string()) }
    }
    fn set_auth_bits(&mut self, _access_bits: Vec<u8>) -> Result<(), String> {
        Ok(())
    }
    fn format(&mut self, _uuid: &Vec<u8>) -> Result<(), String> {
        self.formatted += 1;
        Err("already formatted".to_string())
    }
    fn restore(&mut self, _uuid: &Vec<u8>) -> Result<(), String> {
        if self.fail_restore { Err("auth".to_string()) } else { Ok(()) }
    }
    fn read_data(&mut self, _uuid: &Vec<u8>, addr: u8, _blocks: u8) -> Result<Vec<u8>, String> {
        if self.fail_read {
            return Err("read".to_string());
        }
        Ok(self.blocks.get(&addr).cloned().unwrap_or(vec![0u8; 16]))
    }
    fn write_data(&mut self, _uuid: &Vec<u8>, addr: u8, data: &Vec<u8>) -> Result<u8, String> {
        if self.fail_write {
            return Err("write".to_string());
        }
        self.blocks.insert(addr, data.clone());
        Ok(1)
    }
    fn signature(&self) -> String {
        "memory".to_string()
    }
}

/// A card list in memory.
struct MemoryList {
    cards: Vec<Card>,
    fail_add: bool,
}

impl Persist for MemoryList {
    fn init(&mut self, _params: &HashMap<String, String>) -> Result<(), String> {
        Ok(())
    }
    fn unload(&mut self) -> Result<(), String> {
        Ok(())
    }
    fn nfc_add(&mut self, uuid: &Vec<u8>, name: &Vec<u8>) -> Result<(), String> {
        if self.fail_add {
            return Err("disk full".to_string());
        }
        let id = self.cards.len() as i32 + 1;
        self.cards.push(Card { id, uuid: uuid.clone(), name: name.clone() });
        Ok(())
    }
    fn nfc_find(&mut self, uuid: &Vec<u8>) -> Result<Card, String> {
        for c in &self.cards {
            if &c.uuid == uuid {
                return Ok(Card { id: c.id, uuid: c.uuid.clone(), name: c.name.clone() });
            }
        }
        Err("Card Not Found".to_string())
    }
    fn nfc_list(&mut self) -> Result<Vec<Card>, String> {
        Ok(self.cards.iter().map(|c| Card { id: c.id, uuid: c.uuid.clone(), name: c.name.clone() }).collect())
    }
    fn nfc_delete(&mut self, _uuid: &Vec<u8>) -> Result<(), String> {
        Ok(())
    }
    fn fingerprint_add(&mut self, _pos: i32, _name: &Vec<u8>) -> Result<(), String> {
        Ok(())
    }
    fn fingerprint_find(&mut self, _pos: i32) -> Result<acontrol::persist::Fingerprint, String> {
        Err("Fingerprint Not Found".to_string())
    }
    fn fingerprint_list(&mut self) -> Result<Vec<acontrol::persist::Fingerprint>, String> {
        Ok(Vec::new())
    }
    fn fingerprint_delete(&mut self, _pos: i32) -> Result<(), String> {
        Ok(())
    }
}

struct Sensor {
    accept: bool,
    enrolled: Option<(Option<u16>, Option<String>)>,
}

impl Fingerprint for Sensor {
    fn init(&mut self) -> Result<(), String> {
        Ok(())
    }
    fn wait_for_finger<F: Fn(&FingerprintState, Option<&str>) -> bool + Send + 'static>(&mut self, func: F) -> Result<(), String> {
        func(&FingerprintState::IDLE, None);
        Ok(())
    }
    fn unload(&mut self) -> Result<(), String> {
        Ok(())
    }
    fn signature(&self) -> String {
        "sensor".to_string()
    }
    fn start_enroll(&mut self, data: &FingerprintData) -> bool {
        self.enrolled = Some((data.pos, data.name.clone()));
        self.accept
    }
    fn delete_all(&mut self) -> bool {
        self.accept
    }
}

fn named(name: &str) -> Params {
    let mut p = Params::new();
    p.insert("name".to_string(), name.to_string());
    p
}

#[test]
fn signature_is_acontrol_card() {
    assert_eq!(nfc_card_signature(), b"ACONTROL_CARD\0\0\0".to_vec());
    assert_eq!(card_check(&b"ACONTROL_CARD\0\0\0".to_vec()), CardCheck::Signed);
    assert_eq!(card_check(&b"SOMETHING ELSE\0\0".to_vec()), CardCheck::Unsigned);
    assert_eq!(card_check(&vec![0xff, 0xfe, 0x00]), CardCheck::Unreadable);
}

#[test]
fn read_feedback_grants_only_signed_listed_cards() {
    let sig = Ok(nfc_card_signature());
    assert_eq!(read_feedback(&sig, true), Some(Feedback::Granted));
    assert_eq!(read_feedback(&sig, false), Some(Feedback::Denied));
    assert_eq!(read_feedback(&Ok(vec![65; 16]), true), Some(Feedback::Denied));
    assert_eq!(read_feedback(&Err("timeout".to_string()), true), Some(Feedback::Denied));
    assert_eq!(read_feedback(&Ok(vec![0xc3, 0x28]), true), None);
}

/// Handles a card the way the system's runner does: begins, then performs
/// each call the library asks for on the drivers and hands back the answer.
/// Gives the actions at the end and the calls made, in order.
fn run_tag(
    sys: &mut AControlSystem,
    reader: &mut MemoryReader,
    list: &mut Option<MemoryList>,
    uuid: &Vec<u8>,
) -> (Vec<SystemAction>, Vec<String>) {
    let mut calls = Vec::new();
    let mut step = acontrol_system_find_tag(sys, list.is_some(), CardType::Mifare, uuid);
    loop {
        match step {
            TagStep::Finish(actions) => return (actions, calls),
            TagStep::Call(run, call) => {
                let answer = match call {
                    TagCall::ReadData(u, addr, blocks) => {
                        calls.push(format!("read {:?} {} {}", u, addr, blocks));
                        TagAnswer::Data(reader.read_data(&u, addr, blocks))
                    },
                    TagCall::Format(u) => {
                        calls.push(format!("format {:?}", u));
                        TagAnswer::Done(reader.format(&u).is_ok())
                    },
                    TagCall::WriteData(u, addr, data) => {
                        calls.push(format!("write {:?} {} {:?}", u, addr, data));
                        TagAnswer::Done(reader.write_data(&u, addr, &data).is_ok())
                    },
                    TagCall::Restore(u) => {
                        calls.push(format!("restore {:?}", u));
                        TagAnswer::Done(reader.restore(&u).is_ok())
                    },
                    TagCall::NfcFind(u) => {
                        calls.push(format!("find {:?}", u));
                        TagAnswer::Done(list.as_mut().unwrap().nfc_find(&u).is_ok())
                    },
                    TagCall::NfcAdd(u, name) => {
                        calls.push(format!("add {:?} {}", u, String::from_utf8(name.clone()).unwrap()));
                        TagAnswer::Done(list.as_mut().unwrap().nfc_add(&u, &name).is_ok())
                    },
                };
                step = acontrol_system_tag_answer(run, answer);
            },
        }
    }
}

#[test]
fn authorize_then_write_then_read_grants_the_card() {
    let mut sys = AControlSystem::new();
    let mut reader = MemoryReader::new();
    let mut list = Some(MemoryList { cards: Vec::new(), fail_add: false });
    let uuid = vec![0xde, 0xad, 0xbe, 0xef];

    let entry = acontrol_system_set_nfc_state(&mut sys, NFCSystemState::AUTHORIZE, Some(named("alice")));
    assert_eq!(entry, vec![SystemAction::Play(AudioEvent::Alert), spinner()]);

    let (r, calls) = run_tag(&mut sys, &mut reader, &mut list, &uuid);
    assert!(r.is_empty());
    assert_eq!(calls, vec!["format [222, 173, 190, 239]".to_string()]);
    assert_eq!(reader.formatted, 1);
    assert_eq!(sys.nfc_state, NFCSystemState::WRITE);

    let (r, calls) = run_tag(&mut sys, &mut reader, &mut list, &uuid);
    assert_eq!(r, feedback_actions(Feedback::Added));
    assert_eq!(
        calls,
        vec![
            format!("write [222, 173, 190, 239] 1 {:?}", b"ACONTROL_CARD\0\0\0".to_vec()),
            "find [222, 173, 190, 239]".to_string(),
            "add [222, 173, 190, 239] alice".to_string(),
        ]
    );
    assert_eq!(sys.nfc_state, NFCSystemState::READ);
    assert_eq!(reader.blocks.get(&1).unwrap(), &b"ACONTROL_CARD\0\0\0".to_vec());
    assert_eq!(list.as_ref().unwrap().cards[0].name, b"alice".to_vec());

    let (r, calls) = run_tag(&mut sys, &mut reader, &mut list, &uuid);
    assert_eq!(r, granted());
    assert_eq!(calls, vec!["read [222, 173, 190, 239] 1 0".to_string(), "find [222, 173, 190, 239]".to_string()]);
    assert_eq!(sys.nfc_state, NFCSystemState::READ);
}

#[test]
fn unknown_or_unsigned_cards_are_denied() {
    let mut sys = AControlSystem::new();
    let mut reader = MemoryReader::new();
    let mut list = Some(MemoryList { cards: Vec::new(), fail_add: false });
    reader.blocks.insert(1, nfc_card_signature());
    let (r, calls) = run_tag(&mut sys, &mut reader, &mut list, &vec![1, 2, 3, 4]);
    assert_eq!(r, denied());
    assert_eq!(calls.len(), 2);

    reader.blocks.insert(1, b"NOT OUR CARD....".to_vec());
    let (r, calls) = run_tag(&mut sys, &mut reader, &mut list, &vec![1, 2, 3, 4]);
    assert_eq!(r, denied());
    assert_eq!(calls, vec!["read [1, 2, 3, 4] 1 0".to_string()]);

    reader.fail_read = true;
    let (r, calls) = run_tag(&mut sys, &mut reader, &mut list, &vec![1, 2, 3, 4]);
    assert_eq!(r, denied());
    assert_eq!(calls.len(), 1);
}

#[test]
fn a_block_that_is_not_text_gets_no_answer() {
    let mut sys = AControlSystem::new();
    let mut reader = MemoryReader::new();
    let mut list = Some(MemoryList { cards: Vec::new(), fail_add: false });
    reader.blocks.insert(1, vec![0xff; 16]);
    let (r, calls) = run_tag(&mut sys, &mut reader, &mut list, &vec![5]);
    assert!(r.is_empty());
    assert_eq!(calls.len(), 1);
}

#[test]
fn reading_without_a_card_list_does_nothing() {
    let mut sys = AControlSystem::new();
    let mut reader = MemoryReader::new();
    let mut list: Option<MemoryList> = None;
    let (r, calls) = run_tag(&mut sys, &mut reader, &mut list, &vec![1, 2, 3, 4]);
    assert!(r.is_empty());
    assert!(calls.is_empty());
}

#[test]
fn failed_write_and_failed_add_are_errors() {
    let mut sys = AControlSystem::new();
    let mut reader = MemoryReader::new();
    reader.fail_write = true;
    let mut list = Some(MemoryList { cards: Vec::new(), fail_add: false });
    acontrol_system_set_nfc_state(&mut sys, NFCSystemState::WRITE, Some(named("bob")));
    let (r, calls) = run_tag(&mut sys, &mut reader, &mut list, &vec![9]);
    assert_eq!(r, feedback_actions(Feedback::AddFailed));
    assert_eq!(r[0], SystemAction::Play(AudioEvent::Error));
    assert_eq!(calls.len(), 1);
    assert_eq!(sys.nfc_state, NFCSystemState::READ);

    reader.fail_write = false;
    let mut list = Some(MemoryList { cards: Vec::new(), fail_add: true });
    acontrol_system_set_nfc_state(&mut sys, NFCSystemState::WRITE, None);
    let (r, calls) = run_tag(&mut sys, &mut reader, &mut list, &vec![9]);
    assert_eq!(r, feedback_actions(Feedback::AddFailed));
    assert_eq!(calls[2], "add [9] bob".to_string());
}

#[test]
fn writing_without_an_owner_name_is_an_add_failure() {
    let mut sys = AControlSystem::new();
    let mut reader = MemoryReader::new();
    let mut list = Some(MemoryList { cards: Vec::new(), fail_add: false });
    acontrol_system_set_nfc_state(&mut sys, NFCSystemState::WRITE, None);
    let (r, calls) = run_tag(&mut sys, &mut reader, &mut list, &vec![3]);
    assert_eq!(r, feedback_actions(Feedback::AddFailed));
    assert_eq!(calls.len(), 2);
    assert!(list.unwrap().cards.is_empty());
}

#[test]
fn writing_without_a_card_list_only_writes() {
    let mut sys = AControlSystem::new();
    let mut reader = MemoryReader::new();
    let mut list: Option<MemoryList> = None;
    acontrol_system_set_nfc_state(&mut sys, NFCSystemState::WRITE, Some(named("dan")));
    let (r, calls) = run_tag(&mut sys, &mut reader, &mut list, &vec![4]);
    assert!(r.is_empty());
    assert_eq!(calls.len(), 1);
    assert_eq!(reader.blocks.get(&1).unwrap(), &nfc_card_signature());
}

#[test]
fn a_listed_card_is_not_added_twice() {
    let mut sys = AControlSystem::new();
    let mut reader = MemoryReader::new();
    let mut list = Some(MemoryList { cards: vec![Card { id: 1, uuid: vec![7], name: b"carol".to_vec() }], fail_add: false });
    acontrol_system_set_nfc_state(&mut sys, NFCSystemState::WRITE, Some(named("carol")));
    let (r, calls) = run_tag(&mut sys, &mut reader, &mut list, &vec![7]);
    assert!(r.is_empty());
    assert_eq!(calls.len(), 2);
    assert_eq!(list.unwrap().cards.len(), 1);
}

#[test]
fn restore_answers_success_or_error() {
    let mut sys = AControlSystem::new();
    let mut reader = MemoryReader::new();
    let mut list: Option<MemoryList> = None;
    acontrol_system_set_nfc_state(&mut sys, NFCSystemState::RESTORE, None);
    let (r, calls) = run_tag(&mut sys, &mut reader, &mut list, &vec![1]);
    assert_eq!(r[0], SystemAction::Play(AudioEvent::Success));
    assert_eq!(calls, vec!["restore [1]".to_string()]);
    assert_eq!(sys.nfc_state, NFCSystemState::READ);

    reader.fail_restore = true;
    acontrol_system_set_nfc_state(&mut sys, NFCSystemState::RESTORE, None);
    let (r, _) = run_tag(&mut sys, &mut reader, &mut list, &vec![1]);
    assert_eq!(
        r,
        vec![
            SystemAction::Play(AudioEvent::Error),
            SystemAction::Show(Animation::Blink, AnimationColor::Red, AnimationType::Success, DisplayMessage::Done, 3),
            SystemAction::WaitAnimationEnds,
        ]
    );
}

#[test]
fn write_feedback_follows_the_outcomes() {
    assert_eq!(write_feedback(false, None, false), Some(Feedback::AddFailed));
    assert_eq!(write_feedback(true, None, false), None);
    assert_eq!(write_feedback(true, Some(true), false), None);
    assert_eq!(write_feedback(true, Some(false), true), Some(Feedback::Added));
    assert_eq!(write_feedback(true, Some(false), false), Some(Feedback::AddFailed));
}

#[test]
fn only_authorizing_alerts() {
    let mut sys = AControlSystem::new();
    assert!(acontrol_system_set_nfc_state(&mut sys, NFCSystemState::READ, None).is_empty());
    assert!(acontrol_system_set_nfc_state(&mut sys, NFCSystemState::RESTORE, None).is_empty());
    assert_eq!(
        acontrol_system_set_bluetooth_state(&mut sys, BluetoothSystemState::AUTHORIZE, None),
        vec![SystemAction::Play(AudioEvent::Alert), spinner()]
    );
    assert_eq!(sys.bt_state, BluetoothSystemState::AUTHORIZE);
    assert_eq!(sys.nfc_state, NFCSystemState::RESTORE);
}

#[test]
fn a_repeated_fingerprint_state_is_ignored() {
    let mut sys = AControlSystem::new();
    let r = acontrol_system_find_finger(&mut sys, &FingerprintState::WAITING, None);
    assert_eq!(r, vec![SystemAction::Play(AudioEvent::Alert), spinner()]);
    let r = acontrol_system_find_finger(&mut sys, &FingerprintState::WAITING, None);
    assert!(r.is_empty());
    let r = acontrol_system_find_finger(&mut sys, &FingerprintState::IDLE, None);
    assert_eq!(r, vec![SystemAction::ClearDisplay]);
    assert_eq!(sys.fingerprint_last_state, Some(FingerprintState::IDLE));
}

#[test]
fn fingerprint_answers_by_state() {
    let mut sys = AControlSystem::new();
    assert_eq!(acontrol_system_find_finger(&mut sys, &FingerprintState::AUTHORIZED, None), granted());
    let r = acontrol_system_find_finger(&mut sys, &FingerprintState::NOT_AUTHORIZED, None);
    assert_eq!(r[1], SystemAction::Show(Animation::BlinkLoop, AnimationColor::Red, AnimationType::Error, DisplayMessage::Done, 3));
    assert_eq!(r[3], SystemAction::RunScript(ScriptKind::Denied));
    assert!(acontrol_system_find_finger(&mut sys, &FingerprintState::ENROLL, None).is_empty());
    sys.fingerprint_data = FingerprintData::new(3, "dave");
    acontrol_system_find_finger(&mut sys, &FingerprintState::IDLE, None);
    let r = acontrol_system_find_finger(&mut sys, &FingerprintState::ENROLL, None);
    assert_eq!(r[0], SystemAction::Play(AudioEvent::New));
    let r = acontrol_system_find_finger(&mut sys, &FingerprintState::SUCCESS, None);
    assert_eq!(r[1], SystemAction::Show(Animation::BlinkLoop, AnimationColor::Green, AnimationType::Success, DisplayMessage::Done, 0));
}

#[test]
fn bluetooth_device_in_reading_asks_the_door() {
    let mut sys = AControlSystem::new();
    let device = BluetoothDevice::new("AA:BB".to_string());
    let (r, query) = acontrol_system_find_bt_device(&mut sys, &device);
    assert_eq!(r, vec![spinner()]);
    assert!(query);

    acontrol_system_set_bluetooth_state(&mut sys, BluetoothSystemState::AUTHORIZE, None);
    let (r, query) = acontrol_system_find_bt_device(&mut sys, &device);
    assert!(r.is_empty());
    assert!(!query);
    assert_eq!(sys.bt_state, BluetoothSystemState::READ);
}

#[test]
fn door_query_close_opens_the_door() {
    assert_eq!(acontrol_system_bt_query_answered(&b"CLOSE\n".to_vec()), granted());
    assert_eq!(acontrol_system_bt_query_answered(&b"close  \t\r\n".to_vec()), granted());
    assert_eq!(acontrol_system_bt_query_answered(&b"open\n".to_vec()), vec![SystemAction::ClearDisplay]);
    assert_eq!(acontrol_system_bt_query_answered(&b"  close".to_vec()), vec![SystemAction::ClearDisplay]);
    assert_eq!(acontrol_system_bt_query_answered(&vec![0xff, b'c']), vec![SystemAction::ClearDisplay]);
    assert!(query_says_close("close"));
    assert!(!query_says_close("Close"));
}

#[test]
fn start_enroll_remembers_slot_and_name() {
    let mut sys = AControlSystem::new();
    let mut sensor = Sensor { accept: true, enrolled: None };
    let mut p = named("erin");
    p.insert("pos".to_string(), "12".to_string());
    assert!(acontrol_system_fingerprint_start_enroll(&mut sys, true, p));
    assert_eq!(sys.fingerprint_data.pos, Some(12));
    assert_eq!(sys.fingerprint_data.name, Some("erin".to_string()));
    let answer = sensor.start_enroll(&sys.fingerprint_data);
    assert_eq!(acontrol_system_fingerprint_enroll_result(Some(answer)), Ok(()));
    assert_eq!(sensor.enrolled, Some((Some(12), Some("erin".to_string()))));

    let mut sensor = Sensor { accept: false, enrolled: None };
    let mut p = named("erin");
    p.insert("pos".to_string(), "+7".to_string());
    assert!(acontrol_system_fingerprint_start_enroll(&mut sys, true, p));
    assert_eq!(sys.fingerprint_data.pos, Some(7));
    let answer = sensor.start_enroll(&sys.fingerprint_data);
    assert_eq!(
        acontrol_system_fingerprint_enroll_result(Some(answer)),
        Err("Error starting enrollment".to_string())
    );
}

#[test]
fn start_enroll_without_sensor_is_ok() {
    let mut sys = AControlSystem::new();
    assert!(!acontrol_system_fingerprint_start_enroll(&mut sys, false, Params::new()));
    assert_eq!(sys.fingerprint_data.pos, None);
    assert_eq!(acontrol_system_fingerprint_enroll_result(None), Ok(()));
}

#[test]
fn delete_all_reports_refusal() {
    let mut sensor = Sensor { accept: false, enrolled: None };
    assert_eq!(
        acontrol_system_fingerprint_delete_all(Some(sensor.delete_all()), Params::new()),
        Err("Error deleting all fingerprints".to_string())
    );
    let mut sensor = Sensor { accept: true, enrolled: None };
    assert_eq!(acontrol_system_fingerprint_delete_all(Some(sensor.delete_all()), Params::new()), Ok(()));
    assert_eq!(acontrol_system_fingerprint_delete_all(None, Params::new()), Ok(()));
}

#[test]
fn mifare_keys_need_a_reader() {
    assert!(acontrol_system_set_mifare_keys(false, &vec![1; 6], &vec![2; 6]).is_none());
    assert!(!mifare_keys_taken(None));
    let (a, b) = acontrol_system_set_mifare_keys(true, &vec![1; 6], &vec![2; 6]).unwrap();
    assert_eq!((a.clone(), b.clone()), (vec![1; 6], vec![2; 6]));
    let mut reader = MemoryReader::new();
    assert!(mifare_keys_taken(Some(reader.set_auth_keys(&a, &b))));
    let (a, b) = acontrol_system_set_mifare_keys(true, &vec![1; 5], &vec![2; 6]).unwrap();
    assert!(!mifare_keys_taken(Some(reader.set_auth_keys(&a, &b))));
}

#[test]
fn params_keep_the_last_value() {
    let mut p = Params::new();
    assert_eq!(p.get("name"), None);
    p.insert("name".to_string(), "a".to_string());
    p.insert("pos".to_string(), "1".to_string());
    p.insert("name".to_string(), "b".to_string());
    assert_eq!(p.get("name"), Some("b".to_string()));
    assert_eq!(p.get("pos"), Some("1".to_string()));
}
