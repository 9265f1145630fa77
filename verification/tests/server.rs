use acontrol::audio::AudioEvent;
use acontrol::fingerprint::{Fingerprint, FingerprintData, FingerprintState};
use acontrol::persist::Card;
use acontrol::server::{
    create_server_by_name, fingerprint_start_enroll, result_reply, nfc_authorize, nfc_list_reply,
    nfc_restore, routes, HttpMethod, HttpStatus, NfcListReply, RequestBody, Route, ServerKind, WebServer,
};
use acontrol::system::{acontrol_system_fingerprint_enroll_result, AControlSystem, NFCSystemState, SystemAction};

struct Sensor {
    accept: bool,
}

impl Fingerprint for Sensor {
    fn init(&mut self) -> Result<(), String> {
        Ok(())
    }
    fn wait_for_finger<F: Fn(&FingerprintState, Option<&str>) -> bool + Send + 'static>(&mut self, _func: F) -> Result<(), String> {
        Ok(())
    }
    fn unload(&mut self) -> Result<(), String> {
        Ok(())
    }
    fn signature(&self) -> String {
        String::new()
    }
    fn start_enroll(&mut self, _data: &FingerprintData) -> bool {
        self.accept
    }
    fn delete_all(&mut self) -> bool {
        self.accept
    }
}

#[test]
fn server_signature_and_address() {
    let mut s = WebServer::new();
    s.port(8088).host("0.0.0.0");
    assert_eq!(s.address(), "0.0.0.0:8088");
    assert_eq!(s.signature(), "WebServer running: 0.0.0.0:8088");
    assert_eq!(create_server_by_name("generic"), Some(ServerKind::Generic));
    assert_eq!(create_server_by_name("iron"), None);
}

#[test]
fn route_table() {
    let r = routes();
    assert_eq!(r.len(), 5);
    assert_eq!(r[0], (HttpMethod::Get, "/nfc/card", Route::NfcList, "nfc_list"));
    assert_eq!(r[1], (HttpMethod::Post, "/nfc/card/authorize", Route::NfcAuthorize, "nfc_authorize"));
    assert_eq!(r[3], (HttpMethod::Post, "/fingerprint/enroll", Route::FingerprintStartEnroll, "fingerprint_start_enroll"));
    assert_eq!(HttpStatus::BadRequest.code(), 400);
    assert_eq!(HttpStatus::InternalServerError.code(), 500);
    assert_eq!(HttpStatus::Success.code(), 200);
}

#[test]
fn authorize_needs_a_body_and_a_name() {
    let mut sys = AControlSystem::new();
    let (r, a) = nfc_authorize(&mut sys, None);
    assert_eq!(r.status, HttpStatus::BadRequest);
    assert_eq!(r.body.msg, "No body. Or body is not a valid json");
    assert!(!r.body.ret);
    assert!(a.is_empty());

    let (r, _) = nfc_authorize(&mut sys, Some(RequestBody { name: None, pos: None }));
    assert_eq!(r.body.msg, "Name field is required");
    assert_eq!(sys.nfc_state, NFCSystemState::READ);

    let (r, a) = nfc_authorize(&mut sys, Some(RequestBody { name: Some("zoe".to_string()), pos: None }));
    assert_eq!(r.status, HttpStatus::Success);
    assert!(r.body.ret);
    assert_eq!(r.body.msg, "Ok");
    assert_eq!(a[0], SystemAction::Play(AudioEvent::Alert));
    assert_eq!(sys.nfc_state, NFCSystemState::AUTHORIZE);
    assert_eq!(sys.nfc_state_params.get("name"), Some("zoe".to_string()));
}

#[test]
fn restore_request() {
    let mut sys = AControlSystem::new();
    let (r, a) = nfc_restore(&mut sys);
    assert_eq!(r.status, HttpStatus::Success);
    assert!(a.is_empty());
    assert_eq!(sys.nfc_state, NFCSystemState::RESTORE);
}

#[test]
fn card_list_answers() {
    match nfc_list_reply(Some(Err("db".to_string()))) {
        NfcListReply::Failed(w) => {
            assert_eq!(w.status, HttpStatus::InternalServerError);
            assert_eq!(w.body.msg, "Error searching cards");
        },
        NfcListReply::Listed(_) => panic!("expected a failure"),
    }
    let cards = vec![
        Card { id: 1, uuid: vec![1, 2], name: b"ana".to_vec() },
        Card { id: 2, uuid: vec![3], name: "jos\u{e9}".as_bytes().to_vec() },
    ];
    match nfc_list_reply(Some(Ok(cards))) {
        NfcListReply::Listed(l) => {
            assert!(l.ret);
            assert_eq!(l.msg, "Ok");
            assert_eq!(l.cards.len(), 2);
            assert_eq!(l.cards[0].name, "ana");
            assert_eq!(l.cards[1].name, "jos\u{e9}");
            assert_eq!(l.cards[1].uuid, vec![3]);
            assert_eq!(l.cards[1].id, 2);
        },
        NfcListReply::Failed(_) => panic!("expected a list"),
    }
    match nfc_list_reply(None) {
        NfcListReply::Listed(l) => assert!(l.cards.is_empty()),
        NfcListReply::Failed(_) => panic!("expected a list"),
    }
}

#[test]
fn delete_all_reply_passes_the_error() {
    let r = result_reply(Err("Error deleting all fingerprints".to_string()));
    assert_eq!(r.status, HttpStatus::Success);
    assert!(!r.body.ret);
    assert_eq!(r.body.msg, "Error deleting all fingerprints");
    let r = result_reply(Ok(()));
    assert!(r.body.ret);
    assert_eq!(r.body.msg, "Ok");
}

/// Handles an enrollment request the way the web route does: asks the
/// sensor where the library says so, and replies with its answer.
fn enroll(sys: &mut AControlSystem, sensor: &mut Option<Sensor>, body: Option<RequestBody>) -> acontrol::server::WebReply {
    match fingerprint_start_enroll(sys, sensor.is_some(), body) {
        Some(reply) => reply,
        None => {
            let answer = sensor.as_mut().unwrap().start_enroll(&sys.fingerprint_data);
            result_reply(acontrol_system_fingerprint_enroll_result(Some(answer)))
        },
    }
}

#[test]
fn enroll_request_checks_its_fields() {
    let mut sys = AControlSystem::new();
    let mut sensor = Some(Sensor { accept: true });
    let r = enroll(&mut sys, &mut sensor, None);
    assert_eq!(r.status, HttpStatus::BadRequest);
    let r = enroll(&mut sys, &mut sensor, Some(RequestBody { name: None, pos: Some("1".to_string()) }));
    assert_eq!(r.body.msg, "Name field is required");
    let r = enroll(&mut sys, &mut sensor, Some(RequestBody { name: Some("x".to_string()), pos: None }));
    assert_eq!(r.body.msg, "Pos field is required");
    let r = enroll(&mut sys, &mut sensor, Some(RequestBody { name: Some("x".to_string()), pos: Some("42".to_string()) }));
    assert_eq!(r.status, HttpStatus::Success);
    assert!(r.body.ret);
    assert_eq!(sys.fingerprint_data.pos, Some(42));
    let mut refusing = Some(Sensor { accept: false });
    let r = enroll(&mut sys, &mut refusing, Some(RequestBody { name: Some("y".to_string()), pos: Some("5".to_string()) }));
    assert!(!r.body.ret);
    assert_eq!(r.body.msg, "Error starting enrollment");
    let r = fingerprint_start_enroll(&mut sys, false, Some(RequestBody { name: Some("z".to_string()), pos: Some("x".to_string()) }));
    let r = r.unwrap();
    assert!(r.body.ret);
    assert_eq!(sys.fingerprint_data.pos, Some(5));
}
