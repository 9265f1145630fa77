//! The web server: where it listens, its routes, and how it answers each
//! request.
use vstd::prelude::*;
use vstd::string::{StrSliceExecFns, StringExecFns};
use vstd::utf8::{decode_utf8, valid_utf8};
use crate::persist::Card;
use crate::system::{
    acontrol_system_fingerprint_start_enroll, acontrol_system_set_nfc_state, state_entry_actions,
    lookup, AControlSystem, NFCSystemState, Params, SystemAction,
};
use crate::text::{decimal, spec_parse_unsigned, str_is, string_from_utf8, u64_to_string, utf8_valid};

verus! {

/// A web server on a host and port.
pub struct WebServer {
    pub host: String,
    pub port: u32,
}

impl WebServer {
    /// A server with no host and port 0.
    pub fn new() -> (s: WebServer)
        ensures
            s.host@ == Seq::<char>::empty(),
            s.port == 0,
    {
        WebServer { host: String::new(), port: 0 }
    }

    /// Sets the port.
    pub fn port(&mut self, port: u32) -> (r: &mut WebServer)
        ensures
            r.port == port,
            r.host@ == old(self).host@,
            *final(self) == *final(r),
    {
        self.port = port;
        self
    }

    /// Sets the host.
    pub fn host(&mut self, host: &str) -> (r: &mut WebServer)
        ensures
            r.host@ == host@,
            r.port == old(self).port,
            *final(self) == *final(r),
    {
        self.host = host.to_owned();
        self
    }

    /// The address to listen on: host, a colon, and the port.
    pub fn address(&self) -> (s: String)
        ensures
            s@ == self.host@ + ":"@ + decimal(self.port as nat),
    {
        let mut s = self.host.clone();
        s.append(":");
        let p = u64_to_string(self.port as u64);
        s.append(p.as_str());
        s
    }

    /// "WebServer running: " and the address.
    pub fn signature(&self) -> (s: String)
        ensures
            s@ == "WebServer running: "@ + self.host@ + ":"@ + decimal(self.port as nat),
    {
        let mut s = "WebServer running: ".to_owned();
        let a = self.address();
        s.append(a.as_str());
        s
    }
}

/// A web server front.
pub trait Server {
    fn port(&mut self, port: u32) -> &mut Self;
    fn host(&mut self, host: &str) -> &mut Self;
    fn init(&self) -> Result<(), String>;
    fn signature(&self) -> String;
}

/// The servers that can be chosen by name.
#[derive(Debug, Clone, Copy, PartialEq, Eq, Structural)]
pub enum ServerKind {
    Generic,
}

/// The server called `name` ("generic"), if any.
pub fn create_server_by_name(name: &str) -> (r: Option<ServerKind>)
    ensures
        name@ == "generic"@ ==> r == Some(ServerKind::Generic),
        name@ != "generic"@ ==> r is None,
{
    if str_is(name, "generic") {
        Some(ServerKind::Generic)
    } else {
        None
    }
}

/// The requests the server answers.
#[derive(Debug, Clone, Copy, PartialEq, Eq, Structural)]
pub enum Route {
    NfcList,
    NfcAuthorize,
    NfcRestore,
    FingerprintStartEnroll,
    FingerprintDeleteAll,
}

/// The two methods the routes use.
#[derive(Debug, Clone, Copy, PartialEq, Eq, Structural)]
pub enum HttpMethod {
    Get,
    Post,
}

/// The route table: method, path, request and its name.
pub open spec fn route_table() -> Seq<(HttpMethod, Seq<char>, Route, Seq<char>)> {
    seq![
        (HttpMethod::Get, "/nfc/card"@, Route::NfcList, "nfc_list"@),
        (HttpMethod::Post, "/nfc/card/authorize"@, Route::NfcAuthorize, "nfc_authorize"@),
        (HttpMethod::Get, "/nfc/card/restore"@, Route::NfcRestore, "nfc_restore"@),
        (HttpMethod::Post, "/fingerprint/enroll"@, Route::FingerprintStartEnroll, "fingerprint_start_enroll"@),
        (HttpMethod::Get, "/fingerprint/delete_all"@, Route::FingerprintDeleteAll, "fingerprint_delete_all"@),
    ]
}

/// The route table (see `route_table`).
pub fn routes() -> (r: Vec<(HttpMethod, &'static str, Route, &'static str)>)
    ensures
        r@.len() == route_table().len(),
        forall|i: int|
            0 <= i < r@.len() ==> {
                &&& (#[trigger] r@[i]).0 == route_table()[i].0
                &&& r@[i].1@ == route_table()[i].1
                &&& r@[i].2 == route_table()[i].2
                &&& r@[i].3@ == route_table()[i].3
            },
{
    let r = vec![
        (HttpMethod::Get, "/nfc/card", Route::NfcList, "nfc_list"),
        (HttpMethod::Post, "/nfc/card/authorize", Route::NfcAuthorize, "nfc_authorize"),
        (HttpMethod::Get, "/nfc/card/restore", Route::NfcRestore, "nfc_restore"),
        (HttpMethod::Post, "/fingerprint/enroll", Route::FingerprintStartEnroll, "fingerprint_start_enroll"),
        (HttpMethod::Get, "/fingerprint/delete_all", Route::FingerprintDeleteAll, "fingerprint_delete_all"),
    ];
    r
}

/// The routes of the web API: every request is served, each by one route;
/// a route is reached by POST exactly when its request carries a JSON body
/// (authorizing a card, enrolling a finger), by GET otherwise; and each
/// request has its path and handler name: listing cards at GET /nfc/card,
/// authorizing at POST /nfc/card/authorize, restoring at GET
/// /nfc/card/restore, enrolling at POST /fingerprint/enroll, deleting every
/// finger at GET /fingerprint/delete_all.
pub proof fn lemma_route_table_serves_each_request(req: Route)
    ensures
        exists|i: int| 0 <= i < route_table().len() && #[trigger] route_table()[i].2 == req,
        forall|i: int, j: int|
            0 <= i < route_table().len() && 0 <= j < route_table().len() && #[trigger] route_table()[i].2
                == #[trigger] route_table()[j].2 ==> i == j,
        forall|i: int|
            0 <= i < route_table().len() ==> ((#[trigger] route_table()[i]).0 == HttpMethod::Post <==> (
            route_table()[i].2 == Route::NfcAuthorize || route_table()[i].2 == Route::FingerprintStartEnroll)),
        forall|i: int|
            0 <= i < route_table().len() && #[trigger] route_table()[i].2 == req ==> match req {
                Route::NfcList => route_table()[i].1 == "/nfc/card"@ && route_table()[i].3 == "nfc_list"@,
                Route::NfcAuthorize => route_table()[i].1 == "/nfc/card/authorize"@ && route_table()[i].3
                    == "nfc_authorize"@,
                Route::NfcRestore => route_table()[i].1 == "/nfc/card/restore"@ && route_table()[i].3
                    == "nfc_restore"@,
                Route::FingerprintStartEnroll => route_table()[i].1 == "/fingerprint/enroll"@
                    && route_table()[i].3 == "fingerprint_start_enroll"@,
                Route::FingerprintDeleteAll => route_table()[i].1 == "/fingerprint/delete_all"@
                    && route_table()[i].3 == "fingerprint_delete_all"@,
            },
{
    let t = route_table();
    assert(t[0].2 == Route::NfcList);
    assert(t[1].2 == Route::NfcAuthorize);
    assert(t[2].2 == Route::NfcRestore);
    assert(t[3].2 == Route::FingerprintStartEnroll);
    assert(t[4].2 == Route::FingerprintDeleteAll);
}

/// The status of an answer.
#[derive(Debug, Clone, Copy, PartialEq, Eq, Structural)]
pub enum HttpStatus {
    Success,
    BadRequest,
    InternalServerError,
}

impl HttpStatus {
    /// The HTTP status codes of the answers: 200 OK, 400 Bad Request, 500 Internal Server Error, no two alike.
    pub proof fn lemma_code_table(self, other: HttpStatus)
        ensures
            self.spec_code() == other.spec_code() ==> self == other,
            HttpStatus::Success.spec_code() == 200,
            HttpStatus::BadRequest.spec_code() == 400,
            HttpStatus::InternalServerError.spec_code() == 500,
    {
    }

    pub open spec fn spec_code(self) -> u16 {
        match self {
            HttpStatus::Success => 200,
            HttpStatus::BadRequest => 400,
            HttpStatus::InternalServerError => 500,
        }
    }

    /// The HTTP status code.
    pub fn code(&self) -> (c: u16)
        ensures
            c == self.spec_code(),
    {
        match self {
            HttpStatus::Success => 200,
            HttpStatus::BadRequest => 400,
            HttpStatus::InternalServerError => 500,
        }
    }
}

/// The JSON body of most answers: whether the request went through, and a
/// message.
pub struct WebServerDefaultResponse {
    pub ret: bool,
    pub msg: String,
}

/// A card as the card list shows it.
pub struct WebCard {
    pub id: i32,
    pub uuid: Vec<u8>,
    pub name: String,
}

/// The JSON body of the card list.
pub struct WebServerNfcListResponse {
    pub ret: bool,
    pub msg: String,
    pub cards: Vec<WebCard>,
}

/// An answer with a default body.
pub struct WebReply {
    pub status: HttpStatus,
    pub body: WebServerDefaultResponse,
}

/// What the server reads of a JSON request body: the "name" and "pos"
/// fields, where present.
pub struct RequestBody {
    pub name: Option<String>,
    pub pos: Option<String>,
}

pub open spec fn reply_is(r: WebReply, status: HttpStatus, ret: bool, msg: Seq<char>) -> bool {
    r.status == status && r.body.ret == ret && r.body.msg@ == msg
}

fn reply(status: HttpStatus, ret: bool, msg: &str) -> (r: WebReply)
    ensures
        reply_is(r, status, ret, msg@),
{
    WebReply { status, body: WebServerDefaultResponse { ret, msg: msg.to_owned() } }
}

/// Asks the system to authorize the next card for the owner named in the
/// body: without a body, 400 "No body. Or body is not a valid json";
/// without a name, 400 "Name field is required"; otherwise the NFC side
/// goes to authorizing with that name, and 200 "Ok".
pub fn nfc_authorize(sys: &mut AControlSystem, body: Option<RequestBody>) -> (r: (WebReply, Vec<SystemAction>))
    ensures
        body is None ==> {
            &&& reply_is(r.0, HttpStatus::BadRequest, false, "No body. Or body is not a valid json"@)
            &&& r.1@ == Seq::<SystemAction>::empty()
            &&& *final(sys) == *old(sys)
        },
        body matches Some(b) ==> (b.name is None ==> {
            &&& reply_is(r.0, HttpStatus::BadRequest, false, "Name field is required"@)
            &&& r.1@ == Seq::<SystemAction>::empty()
            &&& *final(sys) == *old(sys)
        }),
        body matches Some(b) ==> (b.name matches Some(n) ==> {
            &&& reply_is(r.0, HttpStatus::Success, true, "Ok"@)
            &&& r.1@ == state_entry_actions(true)
            &&& final(sys).nfc_state == NFCSystemState::AUTHORIZE
            &&& final(sys).nfc_state_params.spec_get("name"@) == Some(n@)
            &&& forall|k: Seq<char>| k != "name"@ ==> final(sys).nfc_state_params.spec_get(k) is None
            &&& final(sys).bt_state == old(sys).bt_state
            &&& final(sys).bt_state_params@ == old(sys).bt_state_params@
            &&& final(sys).fingerprint_data == old(sys).fingerprint_data
            &&& final(sys).fingerprint_last_state == old(sys).fingerprint_last_state
        }),
{
    match body {
        None => (reply(HttpStatus::BadRequest, false, "No body. Or body is not a valid json"), Vec::new()),
        Some(b) => match b.name {
            None => (reply(HttpStatus::BadRequest, false, "Name field is required"), Vec::new()),
            Some(n) => {
                let ghost name_v = n@;
                let mut params = Params::new();
                let ghost empty = params;
                params.insert("name".to_owned(), n);
                assert(params.spec_get("name"@) == Some(name_v));
                let ghost pv = params@;
                assert forall|k: Seq<char>| k != "name"@ implies #[trigger] lookup(pv, k) is None by {
                    assert(params.spec_get(k) == empty.spec_get(k));
                }
                let actions = acontrol_system_set_nfc_state(sys, NFCSystemState::AUTHORIZE, Some(params));
                assert(sys.nfc_state_params@ == pv);
                assert forall|k: Seq<char>| k != "name"@ implies sys.nfc_state_params.spec_get(k) is None by {
                    assert(lookup(pv, k) is None);
                }
                (reply(HttpStatus::Success, true, "Ok"), actions)
            },
        },
    }
}

/// Asks the system to give the next card its factory keys back: 200 "Ok".
pub fn nfc_restore(sys: &mut AControlSystem) -> (r: (WebReply, Vec<SystemAction>))
    ensures
        reply_is(r.0, HttpStatus::Success, true, "Ok"@),
        r.1@ == Seq::<SystemAction>::empty(),
        final(sys).nfc_state == NFCSystemState::RESTORE,
        final(sys).nfc_state_params@ == old(sys).nfc_state_params@,
        final(sys).bt_state == old(sys).bt_state,
        final(sys).bt_state_params@ == old(sys).bt_state_params@,
        final(sys).fingerprint_data == old(sys).fingerprint_data,
        final(sys).fingerprint_last_state == old(sys).fingerprint_last_state,
{
    let actions = acontrol_system_set_nfc_state(sys, NFCSystemState::RESTORE, None);
    (reply(HttpStatus::Success, true, "Ok"), actions)
}

/// The answer to the card list.
pub enum NfcListReply {
    /// 200, the cards.
    Listed(WebServerNfcListResponse),
    /// An error answer.
    Failed(WebReply),
}

/// Whether every card's owner name is UTF-8 text.
pub open spec fn names_are_text(cards: Seq<Card>) -> bool {
    forall|i: int| 0 <= i < cards.len() ==> valid_utf8(#[trigger] cards[i].name@)
}

/// Whether every card's owner name is UTF-8 text (see `names_are_text`).
pub fn card_names_are_text(cards: &Vec<Card>) -> (r: bool)
    ensures
        r == names_are_text(cards@),
{
    let mut i: usize = 0;
    while i < cards.len()
        invariant
            i <= cards@.len(),
            forall|j: int| 0 <= j < i ==> valid_utf8(#[trigger] cards@[j].name@),
        decreases cards@.len() - i,
    {
        if !utf8_valid(&cards[i].name) {
            return false;
        }
        i = i + 1;
    }
    true
}

/// Answers the card list from what the persistence driver listed (None
/// where there is no driver): 500 "Error searching cards" where the listing
/// failed, otherwise 200 "Ok" with each card, its owner name as text.
pub fn nfc_list_reply(found: Option<Result<Vec<Card>, String>>) -> (r: NfcListReply)
    requires
        found matches Some(Ok(cards)) ==> names_are_text(cards@),
    ensures
        found matches Some(Err(_)) ==> (r matches NfcListReply::Failed(w)
            && reply_is(w, HttpStatus::InternalServerError, false, "Error searching cards"@)),
        found is None ==> (r matches NfcListReply::Listed(l) && l.ret && l.msg@ == "Ok"@ && l.cards@.len() == 0),
        found matches Some(Ok(cards)) ==> (r matches NfcListReply::Listed(l) && l.ret && l.msg@ == "Ok"@
            && l.cards@.len() == cards@.len()
            && forall|i: int| 0 <= i < cards@.len() ==> {
                &&& (#[trigger] l.cards@[i]).id == cards@[i].id
                &&& l.cards@[i].uuid@ == cards@[i].uuid@
                &&& l.cards@[i].name@ == decode_utf8(cards@[i].name@)
            }),
{
    match found {
        None => NfcListReply::Listed(WebServerNfcListResponse { ret: true, msg: "Ok".to_owned(), cards: Vec::new() }),
        Some(Err(_)) => NfcListReply::Failed(reply(HttpStatus::InternalServerError, false, "Error searching cards")),
        Some(Ok(rows)) => {
            let ghost all = rows@;
            let mut rows = rows;
            let mut cards: Vec<WebCard> = Vec::new();
            let n = rows.len();
            while rows.len() > 0
                invariant
                    n == all.len(),
                    cards@.len() + rows@.len() == n,
                    names_are_text(all),
                    rows@ == all.skip(cards@.len() as int),
                    forall|j: int| 0 <= j < cards@.len() ==> {
                        &&& (#[trigger] cards@[j]).id == all[j].id
                        &&& cards@[j].uuid@ == all[j].uuid@
                        &&& cards@[j].name@ == decode_utf8(all[j].name@)
                    },
                decreases rows@.len(),
            {
                let ghost i = cards@.len() as int;
                let card = rows.remove(0);
                assert(card == all[i]);
                assert(valid_utf8(all[i].name@));
                assert(rows@ =~= all.skip(i + 1));
                let name = string_from_utf8(card.name).unwrap();
                cards.push(WebCard { id: card.id, uuid: card.uuid, name });
            }
            NfcListReply::Listed(WebServerNfcListResponse { ret: true, msg: "Ok".to_owned(), cards })
        },
    }
}

/// Answers a request from the outcome of its work (deleting every finger,
/// starting an enrollment): 200, "Ok" where it went through, the error
/// otherwise.
pub fn result_reply(result: Result<(), String>) -> (r: WebReply)
    ensures
        result is Ok ==> reply_is(r, HttpStatus::Success, true, "Ok"@),
        result matches Err(e) ==> reply_is(r, HttpStatus::Success, false, e@),
{
    match result {
        Ok(()) => reply(HttpStatus::Success, true, "Ok"),
        Err(e) => WebReply { status: HttpStatus::Success, body: WebServerDefaultResponse { ret: false, msg: e } },
    }
}

/// Whether the slot of a body with a name and a slot reads as a u16.
pub open spec fn slot_readable(body: Option<RequestBody>) -> bool {
    match body {
        Some(b) => match (b.name, b.pos) {
            (Some(_), Some(p)) => spec_parse_unsigned(p@, 65536) is Some,
            _ => true,
        },
        None => true,
    }
}

/// Asks the system to enroll a finger for the owner and slot in the body:
/// without a body, 400 "No body. Or body is not a valid json"; without a
/// name, 400 "Name field is required"; without a slot, 400 "Pos field is
/// required". Otherwise, without a sensor (`has_sensor`), 200 "Ok"; with
/// one, no reply yet (None): the slot and owner are in the fingerprint data,
/// the sensor is to be asked to start enrolling with it, and the reply is
/// `result_reply` of `acontrol_system_fingerprint_enroll_result` of its
/// answer.
pub fn fingerprint_start_enroll(sys: &mut AControlSystem, has_sensor: bool, body: Option<RequestBody>) -> (r: Option<WebReply>)
    requires
        has_sensor ==> slot_readable(body),
    ensures
        body is None ==> (r matches Some(w) && reply_is(w, HttpStatus::BadRequest, false, "No body. Or body is not a valid json"@))
            && *final(sys) == *old(sys),
        body matches Some(b) ==> (b.name is None ==> (r matches Some(w) && reply_is(w, HttpStatus::BadRequest, false, "Name field is required"@))
            && *final(sys) == *old(sys)),
        body matches Some(b) ==> (b.name is Some && b.pos is None ==> (r matches Some(w) && reply_is(w, HttpStatus::BadRequest, false, "Pos field is required"@))
            && *final(sys) == *old(sys)),
        body matches Some(b) ==> (b.name matches Some(n) ==> (b.pos matches Some(p) ==> {
            &&& !has_sensor ==> (r matches Some(w) && reply_is(w, HttpStatus::Success, true, "Ok"@))
                && final(sys).fingerprint_data == old(sys).fingerprint_data
            &&& has_sensor ==> {
                &&& r is None
                &&& (final(sys).fingerprint_data.pos matches Some(pos) && spec_parse_unsigned(p@, 65536) == Some(pos as nat))
                &&& (final(sys).fingerprint_data.name matches Some(m) && m@ == n@)
            }
        })),
        final(sys).nfc_state == old(sys).nfc_state,
        final(sys).nfc_state_params@ == old(sys).nfc_state_params@,
        final(sys).bt_state == old(sys).bt_state,
        final(sys).bt_state_params@ == old(sys).bt_state_params@,
        final(sys).fingerprint_last_state == old(sys).fingerprint_last_state,
{
    match body {
        None => Some(reply(HttpStatus::BadRequest, false, "No body. Or body is not a valid json")),
        Some(b) => match (b.name, b.pos) {
            (None, _) => Some(reply(HttpStatus::BadRequest, false, "Name field is required")),
            (Some(_), None) => Some(reply(HttpStatus::BadRequest, false, "Pos field is required")),
            (Some(n), Some(p)) => {
                let ghost name_v = n@;
                let ghost pos_v = p@;
                let mut params = Params::new();
                params.insert("name".to_owned(), n);
                params.insert("pos".to_owned(), p);
                proof {
                    reveal_strlit("name");
                    reveal_strlit("pos");
                    assert("name"@.len() != "pos"@.len());
                }
                assert(params.spec_get("name"@) == Some(name_v));
                assert(params.spec_get("pos"@) == Some(pos_v));
                if acontrol_system_fingerprint_start_enroll(sys, has_sensor, params) {
                    None
                } else {
                    Some(reply(HttpStatus::Success, true, "Ok"))
                }
            },
        },
    }
}

} // verus!
