//! The access control system: its states, what it decides when a card, a
//! finger or a phone shows up, and what it then tells the user.
use vstd::prelude::*;
use vstd::utf8::{encode_utf8, valid_utf8};
use crate::audio::AudioEvent;
use crate::bytes::{bytes_equal, copy_range};
use crate::display::{Animation, AnimationColor, AnimationType};
use crate::fingerprint::{FingerprintData, FingerprintState};
use crate::nfc::CardType;
use crate::nfc::mifare::{apply_steps, block_count, lemma_write_then_read, padded, read_back, read_plan_steps, write_plan_steps};
use vstd::string::StrSliceExecFns;
use crate::text::{
    lowercase, parse_u16, spec_parse_unsigned, str_is, to_lowercase_string, trim_end_string, trimmed_end,
    utf8_lossy, utf8_lossy_string, utf8_valid, parse_key_bytes, spec_key_bytes,
};
use crate::bt::BluetoothDevice;

verus! {

/// What the NFC side does with the next card: read it for access, write the
/// card signature, authorize (format) it, or restore its factory keys.
#[derive(Debug, Clone, Copy, PartialEq, Eq, Structural)]
pub enum NFCSystemState {
    READ,
    WRITE,
    AUTHORIZE,
    RESTORE,
}

/// What the Bluetooth side does with the next device: check it for access,
/// or authorize it.
#[derive(Debug, Clone, Copy, PartialEq, Eq, Structural)]
pub enum BluetoothSystemState {
    READ,
    AUTHORIZE,
}

/// Named parameters of a state change (such as the owner's "name"); a name
/// set again hides its earlier value.
pub struct Params {
    entries: Vec<(String, String)>,
}

/// The value of the first entry named `key`.
pub open spec fn lookup(entries: Seq<(Seq<char>, Seq<char>)>, key: Seq<char>) -> Option<Seq<char>>
    decreases entries.len(),
{
    if entries.len() == 0 {
        None
    } else if entries[0].0 == key {
        Some(entries[0].1)
    } else {
        lookup(entries.drop_first(), key)
    }
}

impl View for Params {
    type V = Seq<(Seq<char>, Seq<char>)>;

    closed spec fn view(&self) -> Seq<(Seq<char>, Seq<char>)> {
        self.entries@.map_values(|e: (String, String)| (e.0@, e.1@))
    }
}

impl Params {
    /// The value of the parameter `key`, if set.
    pub open spec fn spec_get(&self, key: Seq<char>) -> Option<Seq<char>> {
        lookup(self@, key)
    }

    /// No parameters.
    pub fn new() -> (p: Params)
        ensures
            forall|k: Seq<char>| p.spec_get(k) is None,
    {
        let p = Params { entries: Vec::new() };
        assert(p@ =~= Seq::<(Seq<char>, Seq<char>)>::empty());
        p
    }

    /// Sets `key` to `value`; the other parameters stay.
    pub fn insert(&mut self, key: String, value: String)
        ensures
            final(self).spec_get(key@) == Some(value@),
            forall|k: Seq<char>| k != key@ ==> final(self).spec_get(k) == old(self).spec_get(k),
    {
        let ghost kv = (key@, value@);
        self.entries.insert(0, (key, value));
        assert(self@ =~= seq![kv] + old(self)@);
        assert(self@.drop_first() =~= old(self)@);
    }

    /// The value of the parameter `key`, if set.
    pub fn get(&self, key: &str) -> (r: Option<String>)
        ensures
            r matches Some(v) ==> self.spec_get(key@) == Some(v@),
            r is None ==> self.spec_get(key@) is None,
    {
        let k = key.to_owned();
        let n = self.entries.len();
        let mut i: usize = 0;
        assert(self@.skip(0) =~= self@);
        while i < n
            invariant
                n == self.entries@.len(),
                i <= n,
                k@ == key@,
                lookup(self@, key@) == lookup(self@.skip(i as int), key@),
            decreases n - i,
        {
            proof {
                assert(self@.skip(i as int).drop_first() =~= self@.skip(i + 1));
                assert(self@.skip(i as int)[0] == (self.entries@[i as int].0@, self.entries@[i as int].1@));
            }
            if self.entries[i].0 == k {
                return Some(self.entries[i].1.clone());
            }
            i = i + 1;
        }
        None
    }
}

/// The text shown with an animation.
#[derive(Debug, Clone, Copy, PartialEq, Eq, Structural)]
pub enum DisplayMessage {
    Waiting,
    Done,
}

/// The programs the system runs to open the door and to record a denial.
#[derive(Debug, Clone, Copy, PartialEq, Eq, Structural)]
pub enum ScriptKind {
    Granted,
    Denied,
}

/// What the system does to tell the user, or to act.
#[derive(Debug, Clone, Copy, PartialEq, Eq, Structural)]
pub enum SystemAction {
    /// Play the sound of an event.
    Play(AudioEvent),
    /// Show an animation: kind, color, meaning, text, and its dismiss value.
    Show(Animation, AnimationColor, AnimationType, DisplayMessage, u64),
    /// Wait until the animation ends.
    WaitAnimationEnds,
    /// When the animation ends, show the waiting spinner again.
    WhenAnimationEndsShowWaiting,
    /// Run a program.
    RunScript(ScriptKind),
    /// Stop the animations and clear the display.
    ClearDisplay,
}

/// The orange spinner that says the system waits.
pub open spec fn waiting_spinner() -> SystemAction {
    SystemAction::Show(
        Animation::MaterialSpinner,
        AnimationColor::Orange,
        AnimationType::Waiting,
        DisplayMessage::Waiting,
        0,
    )
}

/// How the system answers a request.
#[derive(Debug, Clone, Copy, PartialEq, Eq, Structural)]
pub enum Feedback {
    /// Access granted: grant sound, green blink, open the door.
    Granted,
    /// Access denied: denial sound, red blink, record the denial.
    Denied,
    /// A card or fingerprint could not be added: error sound, red blink.
    AddFailed,
    /// A card was added: welcome sound, green blink.
    Added,
    /// A card could not be given its factory keys back.
    RestoreFailed,
    /// A card was given its factory keys back.
    Restored,
}

/// The actions of a feedback.
pub open spec fn spec_feedback_actions(f: Feedback) -> Seq<SystemAction> {
    match f {
        Feedback::Granted => seq![
            SystemAction::Play(AudioEvent::Granted),
            SystemAction::Show(Animation::Blink, AnimationColor::Green, AnimationType::Success, DisplayMessage::Done, 3),
            SystemAction::WhenAnimationEndsShowWaiting,
            SystemAction::RunScript(ScriptKind::Granted),
            SystemAction::ClearDisplay,
        ],
        Feedback::Denied => seq![
            SystemAction::Play(AudioEvent::Denied),
            SystemAction::Show(Animation::Blink, AnimationColor::Red, AnimationType::Error, DisplayMessage::Done, 3),
            SystemAction::WhenAnimationEndsShowWaiting,
            SystemAction::RunScript(ScriptKind::Denied),
            SystemAction::ClearDisplay,
        ],
        Feedback::AddFailed => seq![
            SystemAction::Play(AudioEvent::Error),
            SystemAction::Show(Animation::Blink, AnimationColor::Red, AnimationType::Error, DisplayMessage::Done, 3),
            SystemAction::WaitAnimationEnds,
        ],
        Feedback::Added => seq![
            SystemAction::Play(AudioEvent::New),
            SystemAction::Show(Animation::Blink, AnimationColor::Green, AnimationType::Success, DisplayMessage::Done, 3),
            SystemAction::WaitAnimationEnds,
        ],
        Feedback::RestoreFailed => seq![
            SystemAction::Play(AudioEvent::Error),
            SystemAction::Show(Animation::Blink, AnimationColor::Red, AnimationType::Success, DisplayMessage::Done, 3),
            SystemAction::WaitAnimationEnds,
        ],
        Feedback::Restored => seq![
            SystemAction::Play(AudioEvent::Success),
            SystemAction::Show(Animation::Blink, AnimationColor::Green, AnimationType::Success, DisplayMessage::Done, 3),
            SystemAction::WaitAnimationEnds,
        ],
    }
}

/// The actions of a feedback (see `spec_feedback_actions`).
pub fn feedback_actions(f: Feedback) -> (r: Vec<SystemAction>)
    ensures
        r@ == spec_feedback_actions(f),
{
    let r = match f {
        Feedback::Granted => vec![
            SystemAction::Play(AudioEvent::Granted),
            SystemAction::Show(Animation::Blink, AnimationColor::Green, AnimationType::Success, DisplayMessage::Done, 3),
            SystemAction::WhenAnimationEndsShowWaiting,
            SystemAction::RunScript(ScriptKind::Granted),
            SystemAction::ClearDisplay,
        ],
        Feedback::Denied => vec![
            SystemAction::Play(AudioEvent::Denied),
            SystemAction::Show(Animation::Blink, AnimationColor::Red, AnimationType::Error, DisplayMessage::Done, 3),
            SystemAction::WhenAnimationEndsShowWaiting,
            SystemAction::RunScript(ScriptKind::Denied),
            SystemAction::ClearDisplay,
        ],
        Feedback::AddFailed => vec![
            SystemAction::Play(AudioEvent::Error),
            SystemAction::Show(Animation::Blink, AnimationColor::Red, AnimationType::Error, DisplayMessage::Done, 3),
            SystemAction::WaitAnimationEnds,
        ],
        Feedback::Added => vec![
            SystemAction::Play(AudioEvent::New),
            SystemAction::Show(Animation::Blink, AnimationColor::Green, AnimationType::Success, DisplayMessage::Done, 3),
            SystemAction::WaitAnimationEnds,
        ],
        Feedback::RestoreFailed => vec![
            SystemAction::Play(AudioEvent::Error),
            SystemAction::Show(Animation::Blink, AnimationColor::Red, AnimationType::Success, DisplayMessage::Done, 3),
            SystemAction::WaitAnimationEnds,
        ],
        Feedback::Restored => vec![
            SystemAction::Play(AudioEvent::Success),
            SystemAction::Show(Animation::Blink, AnimationColor::Green, AnimationType::Success, DisplayMessage::Done, 3),
            SystemAction::WaitAnimationEnds,
        ],
    };
    assert(r@ =~= spec_feedback_actions(f));
    r
}


/// The block of a card that holds the card signature.
pub const NFC_CARD_SIGNATURE_BLOCK: u8 = 1;

/// The card signature: "ACONTROL_CARD" and three zero bytes, one block.
pub open spec fn card_signature() -> Seq<u8> {
    seq![65u8, 67, 79, 78, 84, 82, 79, 76, 95, 67, 65, 82, 68, 0, 0, 0]
}

/// The card signature as bytes (see `card_signature`).
pub fn nfc_card_signature() -> (v: Vec<u8>)
    ensures
        v@ == card_signature(),
{
    let v: Vec<u8> = vec![65u8, 67, 79, 78, 84, 82, 79, 76, 95, 67, 65, 82, 68, 0, 0, 0];
    assert(v@ =~= card_signature());
    v
}

/// What the signature block of a card says.
#[derive(Debug, Clone, Copy, PartialEq, Eq, Structural)]
pub enum CardCheck {
    /// It holds the card signature.
    Signed,
    /// It holds some other text.
    Unsigned,
    /// It is not text.
    Unreadable,
}

pub open spec fn spec_card_check(block: Seq<u8>) -> CardCheck {
    if block == card_signature() {
        CardCheck::Signed
    } else if valid_utf8(block) {
        CardCheck::Unsigned
    } else {
        CardCheck::Unreadable
    }
}

/// What the signature block of a card says (see `spec_card_check`).
pub fn card_check(block: &Vec<u8>) -> (c: CardCheck)
    ensures
        c == spec_card_check(block@),
{
    let sig = nfc_card_signature();
    if bytes_equal(block.as_slice(), sig.as_slice()) {
        CardCheck::Signed
    } else if utf8_valid(block) {
        CardCheck::Unsigned
    } else {
        CardCheck::Unreadable
    }
}

/// The answer to a card shown while reading: denied where the card could not
/// be read, does not hold the signature or is not on the list; granted where
/// it holds the signature and is on the list. A block that is not text gets
/// no answer. `read` is the signature block, None where reading failed;
/// `found` whether the card is on the list.
pub open spec fn spec_read_feedback(read: Option<Seq<u8>>, found: bool) -> Option<Feedback> {
    match read {
        None => Some(Feedback::Denied),
        Some(block) => match spec_card_check(block) {
            CardCheck::Signed => if found { Some(Feedback::Granted) } else { Some(Feedback::Denied) },
            CardCheck::Unsigned => Some(Feedback::Denied),
            CardCheck::Unreadable => None,
        },
    }
}

/// The answer to a card shown while writing the signature: a failed write or
/// a failed addition is an error; a card added to the list is welcomed; a
/// card already on the list, or no list at all, gets no answer. `listed` is
/// None where there is no list.
pub open spec fn spec_write_feedback(written: bool, listed: Option<bool>, added: bool) -> Option<Feedback> {
    if !written {
        Some(Feedback::AddFailed)
    } else {
        match listed {
            None => None,
            Some(true) => None,
            Some(false) => if added { Some(Feedback::Added) } else { Some(Feedback::AddFailed) },
        }
    }
}

/// The answer to a card shown while restoring its factory keys.
pub open spec fn spec_restore_feedback(restored: bool) -> Feedback {
    if restored { Feedback::Restored } else { Feedback::RestoreFailed }
}

/// The actions of an answer, none where there is no answer.
pub open spec fn answer_actions(f: Option<Feedback>) -> Seq<SystemAction> {
    match f {
        None => Seq::empty(),
        Some(f) => spec_feedback_actions(f),
    }
}

/// The NFC state after a card was handled: authorizing goes on to writing,
/// writing and restoring go back to reading, reading stays.
pub open spec fn nfc_state_after_tag(state: NFCSystemState) -> NFCSystemState {
    match state {
        NFCSystemState::READ => NFCSystemState::READ,
        NFCSystemState::AUTHORIZE => NFCSystemState::WRITE,
        NFCSystemState::WRITE => NFCSystemState::READ,
        NFCSystemState::RESTORE => NFCSystemState::READ,
    }
}

/// The answer to a card shown while reading (see `spec_read_feedback`).
pub fn read_feedback(read: &Result<Vec<u8>, String>, found: bool) -> (r: Option<Feedback>)
    ensures
        r == spec_read_feedback(
            match read {
                Ok(v) => Some(v@),
                Err(_) => None,
            },
            found,
        ),
{
    match read {
        Err(_) => Some(Feedback::Denied),
        Ok(block) => match card_check(block) {
            CardCheck::Signed => if found { Some(Feedback::Granted) } else { Some(Feedback::Denied) },
            CardCheck::Unsigned => Some(Feedback::Denied),
            CardCheck::Unreadable => None,
        },
    }
}

/// The actions of an answer (see `answer_actions`).
pub fn answer(f: Option<Feedback>) -> (r: Vec<SystemAction>)
    ensures
        r@ == answer_actions(f),
{
    match f {
        None => Vec::new(),
        Some(f) => feedback_actions(f),
    }
}

/// The state of the access control system.
pub struct AControlSystem {
    pub nfc_state: NFCSystemState,
    pub nfc_state_params: Params,
    pub fingerprint_data: FingerprintData,
    pub fingerprint_last_state: Option<FingerprintState>,
    pub bt_state: BluetoothSystemState,
    pub bt_state_params: Params,
}

impl AControlSystem {
    /// A system that reads cards and devices, with no parameters, no
    /// enrollment data and no fingerprint state seen yet.
    pub fn new() -> (s: AControlSystem)
        ensures
            s.nfc_state == NFCSystemState::READ,
            s.bt_state == BluetoothSystemState::READ,
            forall|k: Seq<char>| s.nfc_state_params.spec_get(k) is None,
            forall|k: Seq<char>| s.bt_state_params.spec_get(k) is None,
            s.fingerprint_data.pos is None,
            s.fingerprint_data.name is None,
            s.fingerprint_last_state is None,
    {
        AControlSystem {
            nfc_state: NFCSystemState::READ,
            nfc_state_params: Params::new(),
            fingerprint_data: FingerprintData::empty(),
            fingerprint_last_state: None,
            bt_state: BluetoothSystemState::READ,
            bt_state_params: Params::new(),
        }
    }
}

/// What entering a state tells the user: authorizing plays the alert and
/// shows the waiting spinner; the other states tell nothing.
pub open spec fn state_entry_actions(authorize: bool) -> Seq<SystemAction> {
    if authorize {
        seq![SystemAction::Play(AudioEvent::Alert), waiting_spinner()]
    } else {
        Seq::empty()
    }
}

fn alert_and_wait(authorize: bool) -> (r: Vec<SystemAction>)
    ensures
        r@ == state_entry_actions(authorize),
{
    if authorize {
        let r = vec![
            SystemAction::Play(AudioEvent::Alert),
            SystemAction::Show(
                Animation::MaterialSpinner,
                AnimationColor::Orange,
                AnimationType::Waiting,
                DisplayMessage::Waiting,
                0,
            ),
        ];
        assert(r@ =~= state_entry_actions(authorize));
        r
    } else {
        let r = Vec::new();
        assert(r@ =~= state_entry_actions(authorize));
        r
    }
}

/// Moves the NFC side to `state`, with `params` in place of the parameters
/// where given, and returns what to tell the user.
pub fn acontrol_system_set_nfc_state(sys: &mut AControlSystem, state: NFCSystemState, params: Option<Params>) -> (r: Vec<SystemAction>)
    ensures
        final(sys).nfc_state == state,
        params matches Some(p) ==> final(sys).nfc_state_params@ == p@,
        params is None ==> final(sys).nfc_state_params@ == old(sys).nfc_state_params@,
        final(sys).bt_state == old(sys).bt_state,
        final(sys).bt_state_params@ == old(sys).bt_state_params@,
        final(sys).fingerprint_data == old(sys).fingerprint_data,
        final(sys).fingerprint_last_state == old(sys).fingerprint_last_state,
        r@ == state_entry_actions(state == NFCSystemState::AUTHORIZE),
{
    if let Some(p) = params {
        sys.nfc_state_params = p;
    }
    sys.nfc_state = state;
    alert_and_wait(state == NFCSystemState::AUTHORIZE)
}

/// Moves the Bluetooth side to `state`, with `params` in place of the
/// parameters where given, and returns what to tell the user.
pub fn acontrol_system_set_bluetooth_state(sys: &mut AControlSystem, state: BluetoothSystemState, params: Option<Params>) -> (r: Vec<SystemAction>)
    ensures
        final(sys).bt_state == state,
        params matches Some(p) ==> final(sys).bt_state_params@ == p@,
        params is None ==> final(sys).bt_state_params@ == old(sys).bt_state_params@,
        final(sys).nfc_state == old(sys).nfc_state,
        final(sys).nfc_state_params@ == old(sys).nfc_state_params@,
        final(sys).fingerprint_data == old(sys).fingerprint_data,
        final(sys).fingerprint_last_state == old(sys).fingerprint_last_state,
        r@ == state_entry_actions(state == BluetoothSystemState::AUTHORIZE),
{
    if let Some(p) = params {
        sys.bt_state_params = p;
    }
    sys.bt_state = state;
    alert_and_wait(state == BluetoothSystemState::AUTHORIZE)
}

/// A call that the handling of a card makes of the drivers, with its arguments.
pub enum TagCall {
    /// `read_data(uuid, addr, blocks)` of the reader.
    ReadData(Vec<u8>, u8, u8),
    /// `format(uuid)` of the reader.
    Format(Vec<u8>),
    /// `write_data(uuid, addr, data)` of the reader.
    WriteData(Vec<u8>, u8, Vec<u8>),
    /// `restore(uuid)` of the reader.
    Restore(Vec<u8>),
    /// `nfc_find(uuid)` of the card list.
    NfcFind(Vec<u8>),
    /// `nfc_add(uuid, name)` of the card list.
    NfcAdd(Vec<u8>, Vec<u8>),
}

/// A call of the drivers, as a mathematical value.
pub enum TagRequest {
    ReadData(Seq<u8>, u8, u8),
    Format(Seq<u8>),
    WriteData(Seq<u8>, u8, Seq<u8>),
    Restore(Seq<u8>),
    NfcFind(Seq<u8>),
    NfcAdd(Seq<u8>, Seq<u8>),
}

impl View for TagCall {
    type V = TagRequest;

    open spec fn view(&self) -> TagRequest {
        match self {
            TagCall::ReadData(u, a, b) => TagRequest::ReadData(u@, *a, *b),
            TagCall::Format(u) => TagRequest::Format(u@),
            TagCall::WriteData(u, a, d) => TagRequest::WriteData(u@, *a, d@),
            TagCall::Restore(u) => TagRequest::Restore(u@),
            TagCall::NfcFind(u) => TagRequest::NfcFind(u@),
            TagCall::NfcAdd(u, n) => TagRequest::NfcAdd(u@, n@),
        }
    }
}

/// What a driver answered a call.
pub enum TagAnswer {
    /// What `read_data` gave: the bytes read, or its error.
    Data(Result<Vec<u8>, String>),
    /// Whether a call that gives no data went through.
    Done(bool),
}

/// The bytes an answer carries, where it is data that was read.
pub open spec fn answer_block(a: TagAnswer) -> Option<Seq<u8>> {
    match a {
        TagAnswer::Data(Ok(v)) => Some(v@),
        _ => None,
    }
}

/// Whether an answer says the call went through.
pub open spec fn answer_ok(a: TagAnswer) -> bool {
    match a {
        TagAnswer::Data(r) => r is Ok,
        TagAnswer::Done(b) => b,
    }
}

/// The call that the handling of a card waits on.
#[derive(Debug, Clone, Copy, PartialEq, Eq, Structural)]
pub enum TagPhase {
    /// Reading the signature block.
    Reading,
    /// Looking the signed card up in the list.
    CheckingList,
    /// Giving the card the custom keys.
    Formatting,
    /// Writing the signature.
    Writing,
    /// Looking the written card up in the list.
    LookingUp,
    /// Adding the card to the list.
    Adding,
    /// Giving the card its factory keys back.
    Restoring,
}

/// The handling of one card: the call it waits on, the card, the owner name
/// (as bytes) to add it under, and whether there is a card list.
pub struct TagRun {
    pub phase: TagPhase,
    pub uuid: Vec<u8>,
    pub name: Option<Vec<u8>>,
    pub has_store: bool,
}

/// What the handling of a card does next: make a call of the drivers and
/// hand its answer to `acontrol_system_tag_answer`, or end with what to tell
/// the user.
pub enum TagStep {
    Call(TagRun, TagCall),
    Finish(Vec<SystemAction>),
}

/// The bytes of an optional text.
pub open spec fn opt_bytes(o: Option<Vec<u8>>) -> Option<Seq<u8>> {
    match o {
        Some(v) => Some(v@),
        None => None,
    }
}

/// The owner name of the NFC parameters, as UTF-8 bytes.
pub open spec fn name_bytes(p: Params) -> Option<Seq<u8>> {
    match p.spec_get("name"@) {
        Some(n) => Some(encode_utf8(n)),
        None => None,
    }
}

/// `r` makes the call `req` and then waits in `phase` on the same card.
pub open spec fn is_call(
    r: TagStep,
    phase: TagPhase,
    req: TagRequest,
    uuid: Seq<u8>,
    name: Option<Seq<u8>>,
    has_store: bool,
) -> bool {
    match r {
        TagStep::Call(run, c) => run.phase == phase && run.uuid@ == uuid && opt_bytes(run.name) == name
            && run.has_store == has_store && c@ == req,
        TagStep::Finish(_) => false,
    }
}

/// `r` ends the handling with `actions`.
pub open spec fn is_finish(r: TagStep, actions: Seq<SystemAction>) -> bool {
    match r {
        TagStep::Finish(a) => a@ == actions,
        TagStep::Call(_, _) => false,
    }
}

/// How the handling of card `uuid` begins in NFC state `state`: reading
/// asks for the signature block (block 1 alone), where there is a card list
/// (without one nothing is done); authorizing gives the card the custom keys;
/// writing writes the signature to block 1; restoring gives the factory keys
/// back.
pub open spec fn spec_tag_start(
    state: NFCSystemState,
    has_store: bool,
    uuid: Seq<u8>,
    name: Option<Seq<u8>>,
    r: TagStep,
) -> bool {
    match state {
        NFCSystemState::READ => if has_store {
            is_call(r, TagPhase::Reading, TagRequest::ReadData(uuid, 1, 0), uuid, name, has_store)
        } else {
            is_finish(r, Seq::empty())
        },
        NFCSystemState::AUTHORIZE => is_call(r, TagPhase::Formatting, TagRequest::Format(uuid), uuid, name, has_store),
        NFCSystemState::WRITE => is_call(
            r,
            TagPhase::Writing,
            TagRequest::WriteData(uuid, 1, card_signature()),
            uuid,
            name,
            has_store,
        ),
        NFCSystemState::RESTORE => is_call(r, TagPhase::Restoring, TagRequest::Restore(uuid), uuid, name, has_store),
    }
}

/// What follows answer `a` to the call of `phase`:
/// - a signature block read leads to looking the card up; any other read
///   ends with the answer to that block (see `spec_read_feedback`);
/// - the lookup of a signed card ends granted where it was found, denied
///   otherwise;
/// - the keys given, the handling ends with nothing to tell;
/// - a failed write ends with an error; a written card is looked up where
///   there is a list, and nothing more is done without one;
/// - a listed card ends with nothing to tell; an unlisted one is added under
///   the owner name (without a name, that is an error);
/// - an addition ends welcomed or with an error, as it went;
/// - a restore ends with its success or error.
pub open spec fn spec_tag_next(
    phase: TagPhase,
    uuid: Seq<u8>,
    name: Option<Seq<u8>>,
    has_store: bool,
    a: TagAnswer,
    r: TagStep,
) -> bool {
    match phase {
        TagPhase::Reading => match answer_block(a) {
            Some(b) => if spec_card_check(b) == CardCheck::Signed {
                is_call(r, TagPhase::CheckingList, TagRequest::NfcFind(uuid), uuid, name, has_store)
            } else {
                is_finish(r, answer_actions(spec_read_feedback(Some(b), false)))
            },
            None => is_finish(r, answer_actions(spec_read_feedback(None, false))),
        },
        TagPhase::CheckingList => is_finish(r, answer_actions(spec_read_feedback(Some(card_signature()), answer_ok(a)))),
        TagPhase::Formatting => is_finish(r, Seq::empty()),
        TagPhase::Writing => if !answer_ok(a) {
            is_finish(r, answer_actions(spec_write_feedback(false, None, false)))
        } else if !has_store {
            is_finish(r, answer_actions(spec_write_feedback(true, None, false)))
        } else {
            is_call(r, TagPhase::LookingUp, TagRequest::NfcFind(uuid), uuid, name, has_store)
        },
        TagPhase::LookingUp => if answer_ok(a) {
            is_finish(r, answer_actions(spec_write_feedback(true, Some(true), false)))
        } else {
            match name {
                Some(n) => is_call(r, TagPhase::Adding, TagRequest::NfcAdd(uuid, n), uuid, name, has_store),
                None => is_finish(r, spec_feedback_actions(Feedback::AddFailed)),
            }
        },
        TagPhase::Adding => is_finish(r, answer_actions(spec_write_feedback(true, Some(false), answer_ok(a)))),
        TagPhase::Restoring => is_finish(r, spec_feedback_actions(spec_restore_feedback(answer_ok(a)))),
    }
}

/// The answer to a card shown while writing the signature (see
/// `spec_write_feedback`).
pub fn write_feedback(written: bool, listed: Option<bool>, added: bool) -> (r: Option<Feedback>)
    ensures
        r == spec_write_feedback(written, listed, added),
{
    if !written {
        Some(Feedback::AddFailed)
    } else {
        match listed {
            None => None,
            Some(true) => None,
            Some(false) => if added { Some(Feedback::Added) } else { Some(Feedback::AddFailed) },
        }
    }
}

fn copy_bytes(v: &Vec<u8>) -> (r: Vec<u8>)
    ensures
        r@ == v@,
{
    copy_range(v.as_slice(), 0, v.len())
}

/// Begins the handling of card `uuid` that a reader found (see
/// `spec_tag_start`), taking the owner name from the "name" parameter, and
/// moves the NFC side on (see `nfc_state_after_tag`). `has_store` says
/// whether there is a card list.
pub fn acontrol_system_find_tag(sys: &mut AControlSystem, has_store: bool, card_type: CardType, uuid: &Vec<u8>) -> (r: TagStep)
    ensures
        spec_tag_start(old(sys).nfc_state, has_store, uuid@, name_bytes(old(sys).nfc_state_params), r),
        final(sys).nfc_state == nfc_state_after_tag(old(sys).nfc_state),
        final(sys).nfc_state_params@ == old(sys).nfc_state_params@,
        final(sys).bt_state == old(sys).bt_state,
        final(sys).bt_state_params@ == old(sys).bt_state_params@,
        final(sys).fingerprint_data == old(sys).fingerprint_data,
        final(sys).fingerprint_last_state == old(sys).fingerprint_last_state,
{
    let state = sys.nfc_state;
    let name = match sys.nfc_state_params.get("name") {
        Some(n) => Some(n.as_str().as_bytes_vec()),
        None => None,
    };
    let r = match state {
        NFCSystemState::READ => if has_store {
            let run = TagRun { phase: TagPhase::Reading, uuid: copy_bytes(uuid), name, has_store };
            TagStep::Call(run, TagCall::ReadData(copy_bytes(uuid), NFC_CARD_SIGNATURE_BLOCK, 0))
        } else {
            let r = TagStep::Finish(Vec::new());
            assert(is_finish(r, Seq::empty()));
            r
        },
        NFCSystemState::AUTHORIZE => {
            let run = TagRun { phase: TagPhase::Formatting, uuid: copy_bytes(uuid), name, has_store };
            TagStep::Call(run, TagCall::Format(copy_bytes(uuid)))
        },
        NFCSystemState::WRITE => {
            let run = TagRun { phase: TagPhase::Writing, uuid: copy_bytes(uuid), name, has_store };
            TagStep::Call(run, TagCall::WriteData(copy_bytes(uuid), NFC_CARD_SIGNATURE_BLOCK, nfc_card_signature()))
        },
        NFCSystemState::RESTORE => {
            let run = TagRun { phase: TagPhase::Restoring, uuid: copy_bytes(uuid), name, has_store };
            TagStep::Call(run, TagCall::Restore(copy_bytes(uuid)))
        },
    };
    let next = match state {
        NFCSystemState::READ => NFCSystemState::READ,
        NFCSystemState::AUTHORIZE => NFCSystemState::WRITE,
        NFCSystemState::WRITE => NFCSystemState::READ,
        NFCSystemState::RESTORE => NFCSystemState::READ,
    };
    let _entry = acontrol_system_set_nfc_state(sys, next, None);
    r
}

fn finish(f: Option<Feedback>) -> (r: TagStep)
    ensures
        is_finish(r, answer_actions(f)),
{
    TagStep::Finish(answer(f))
}

/// Goes on with the handling of a card once the driver answered the call it
/// waited on (see `spec_tag_next`).
pub fn acontrol_system_tag_answer(run: TagRun, a: TagAnswer) -> (r: TagStep)
    ensures
        spec_tag_next(run.phase, run.uuid@, opt_bytes(run.name), run.has_store, a, r),
{
    let ghost name = opt_bytes(run.name);
    match run.phase {
        TagPhase::Reading => {
            let read: Result<Vec<u8>, String> = match a {
                TagAnswer::Data(d) => d,
                TagAnswer::Done(_) => Err(String::new()),
            };
            let signed = match &read {
                Ok(block) => card_check(block) == CardCheck::Signed,
                Err(_) => false,
            };
            if signed {
                let u = copy_bytes(&run.uuid);
                TagStep::Call(TagRun { phase: TagPhase::CheckingList, ..run }, TagCall::NfcFind(u))
            } else {
                finish(read_feedback(&read, false))
            }
        },
        TagPhase::CheckingList => {
            let found = match a {
                TagAnswer::Data(d) => d.is_ok(),
                TagAnswer::Done(b) => b,
            };
            let sig = Ok(nfc_card_signature());
            finish(read_feedback(&sig, found))
        },
        TagPhase::Formatting => finish(None),
        TagPhase::Writing => {
            let written = match a {
                TagAnswer::Data(d) => d.is_ok(),
                TagAnswer::Done(b) => b,
            };
            if !written {
                finish(write_feedback(false, None, false))
            } else if !run.has_store {
                finish(write_feedback(true, None, false))
            } else {
                let u = copy_bytes(&run.uuid);
                TagStep::Call(TagRun { phase: TagPhase::LookingUp, ..run }, TagCall::NfcFind(u))
            }
        },
        TagPhase::LookingUp => {
            let listed = match a {
                TagAnswer::Data(d) => d.is_ok(),
                TagAnswer::Done(b) => b,
            };
            if listed {
                finish(write_feedback(true, Some(true), false))
            } else {
                match &run.name {
                    Some(n) => {
                        let u = copy_bytes(&run.uuid);
                        let n2 = copy_bytes(n);
                        TagStep::Call(TagRun { phase: TagPhase::Adding, ..run }, TagCall::NfcAdd(u, n2))
                    },
                    None => finish(Some(Feedback::AddFailed)),
                }
            }
        },
        TagPhase::Adding => {
            let added = match a {
                TagAnswer::Data(d) => d.is_ok(),
                TagAnswer::Done(b) => b,
            };
            finish(write_feedback(true, Some(false), added))
        },
        TagPhase::Restoring => {
            let restored = match a {
                TagAnswer::Data(d) => d.is_ok(),
                TagAnswer::Done(b) => b,
            };
            let f = if restored { Feedback::Restored } else { Feedback::RestoreFailed };
            finish(Some(f))
        },
    }
}

/// What a change of the fingerprint reading tells the user: idle clears the
/// display; reading and waiting show the spinner, waiting with the alert; a
/// success or an error plays its sound and blinks; an enrollment welcomes
/// where a name and slot were given; an authorized finger opens the door and
/// a refused one records the denial.
pub open spec fn finger_actions(state: FingerprintState, enrolling: bool) -> Seq<SystemAction> {
    match state {
        FingerprintState::IDLE => seq![SystemAction::ClearDisplay],
        FingerprintState::READING => seq![waiting_spinner()],
        FingerprintState::WAITING => seq![SystemAction::Play(AudioEvent::Alert), waiting_spinner()],
        FingerprintState::SUCCESS => seq![
            SystemAction::Play(AudioEvent::Success),
            SystemAction::Show(Animation::BlinkLoop, AnimationColor::Green, AnimationType::Success, DisplayMessage::Done, 0),
        ],
        FingerprintState::ERROR => seq![
            SystemAction::Play(AudioEvent::Error),
            SystemAction::Show(Animation::Blink, AnimationColor::Red, AnimationType::Error, DisplayMessage::Done, 3),
            SystemAction::WaitAnimationEnds,
        ],
        FingerprintState::ENROLL => if enrolling {
            seq![
                SystemAction::Play(AudioEvent::New),
                SystemAction::Show(Animation::BlinkLoop, AnimationColor::Green, AnimationType::Success, DisplayMessage::Done, 3),
                SystemAction::WaitAnimationEnds,
            ]
        } else {
            Seq::empty()
        },
        FingerprintState::AUTHORIZED => spec_feedback_actions(Feedback::Granted),
        FingerprintState::NOT_AUTHORIZED => seq![
            SystemAction::Play(AudioEvent::Denied),
            SystemAction::Show(Animation::BlinkLoop, AnimationColor::Red, AnimationType::Error, DisplayMessage::Done, 3),
            SystemAction::WhenAnimationEndsShowWaiting,
            SystemAction::RunScript(ScriptKind::Denied),
            SystemAction::ClearDisplay,
        ],
    }
}

fn finger_state_actions(state: FingerprintState, enrolling: bool) -> (r: Vec<SystemAction>)
    ensures
        r@ == finger_actions(state, enrolling),
{
    let spinner = SystemAction::Show(
        Animation::MaterialSpinner,
        AnimationColor::Orange,
        AnimationType::Waiting,
        DisplayMessage::Waiting,
        0,
    );
    let r = match state {
        FingerprintState::IDLE => vec![SystemAction::ClearDisplay],
        FingerprintState::READING => vec![spinner],
        FingerprintState::WAITING => vec![SystemAction::Play(AudioEvent::Alert), spinner],
        FingerprintState::SUCCESS => vec![
            SystemAction::Play(AudioEvent::Success),
            SystemAction::Show(Animation::BlinkLoop, AnimationColor::Green, AnimationType::Success, DisplayMessage::Done, 0),
        ],
        FingerprintState::ERROR => vec![
            SystemAction::Play(AudioEvent::Error),
            SystemAction::Show(Animation::Blink, AnimationColor::Red, AnimationType::Error, DisplayMessage::Done, 3),
            SystemAction::WaitAnimationEnds,
        ],
        FingerprintState::ENROLL => if enrolling {
            vec![
                SystemAction::Play(AudioEvent::New),
                SystemAction::Show(Animation::BlinkLoop, AnimationColor::Green, AnimationType::Success, DisplayMessage::Done, 3),
                SystemAction::WaitAnimationEnds,
            ]
        } else {
            Vec::new()
        },
        FingerprintState::AUTHORIZED => feedback_actions(Feedback::Granted),
        FingerprintState::NOT_AUTHORIZED => vec![
            SystemAction::Play(AudioEvent::Denied),
            SystemAction::Show(Animation::BlinkLoop, AnimationColor::Red, AnimationType::Error, DisplayMessage::Done, 3),
            SystemAction::WhenAnimationEndsShowWaiting,
            SystemAction::RunScript(ScriptKind::Denied),
            SystemAction::ClearDisplay,
        ],
    };
    assert(r@ =~= finger_actions(state, enrolling));
    r
}

/// Handles a state that the fingerprint sensor reports. A state that
/// repeats the last one is ignored; a new one is remembered and told to the
/// user (see `finger_actions`).
pub fn acontrol_system_find_finger(sys: &mut AControlSystem, state: &FingerprintState, _value: Option<&str>) -> (r: Vec<SystemAction>)
    ensures
        old(sys).fingerprint_last_state == Some(*state) ==> {
            &&& r@ == Seq::<SystemAction>::empty()
            &&& final(sys).fingerprint_last_state == old(sys).fingerprint_last_state
        },
        old(sys).fingerprint_last_state != Some(*state) ==> {
            &&& final(sys).fingerprint_last_state == Some(*state)
            &&& r@ == finger_actions(*state, old(sys).fingerprint_data.name is Some && old(sys).fingerprint_data.pos is Some)
        },
        final(sys).nfc_state == old(sys).nfc_state,
        final(sys).nfc_state_params@ == old(sys).nfc_state_params@,
        final(sys).bt_state == old(sys).bt_state,
        final(sys).bt_state_params@ == old(sys).bt_state_params@,
        final(sys).fingerprint_data == old(sys).fingerprint_data,
{
    let same = match sys.fingerprint_last_state {
        Some(last) => last == *state,
        None => false,
    };
    if same {
        return Vec::new();
    }
    sys.fingerprint_last_state = Some(*state);
    let enrolling = sys.fingerprint_data.name.is_some() && sys.fingerprint_data.pos.is_some();
    finger_state_actions(*state, enrolling)
}

/// What the door query answers tell the user: where the door is closed, the
/// device opens it as a granted card does; either way the display is cleared.
pub open spec fn query_actions(closed: bool) -> Seq<SystemAction> {
    if closed {
        spec_feedback_actions(Feedback::Granted)
    } else {
        seq![SystemAction::ClearDisplay]
    }
}

/// Whether the door query answered that the door is closed: its answer,
/// without trailing white space and in lowercase, is "close".
pub fn query_says_close(answer: &str) -> (r: bool)
    ensures
        r == (answer@ == "close"@),
{
    str_is(answer, "close")
}

/// What to tell the user once the door query answered (see `query_actions`).
pub fn query_answer_actions(closed: bool) -> (r: Vec<SystemAction>)
    ensures
        r@ == query_actions(closed),
{
    if closed {
        feedback_actions(Feedback::Granted)
    } else {
        let r = vec![SystemAction::ClearDisplay];
        assert(r@ =~= query_actions(closed));
        r
    }
}

/// Handles the output of the door query, as the program printed it.
pub fn acontrol_system_bt_query_answered(output: &Vec<u8>) -> (r: Vec<SystemAction>)
    ensures
        r@ == query_actions(lowercase(trimmed_end(utf8_lossy(output@))) == "close"@),
{
    let text = utf8_lossy_string(output);
    let trimmed = trim_end_string(text.as_str());
    let lower = to_lowercase_string(trimmed.as_str());
    let closed = query_says_close(lower.as_str());
    query_answer_actions(closed)
}

/// Handles a Bluetooth device that came in range. While reading, the system
/// shows the spinner and asks whether the door is closed (the second part is
/// true: run the door query, then `acontrol_system_bt_query_answered`).
/// While authorizing, it goes back to reading.
pub fn acontrol_system_find_bt_device(sys: &mut AControlSystem, device: &BluetoothDevice) -> (r: (Vec<SystemAction>, bool))
    ensures
        old(sys).bt_state == BluetoothSystemState::READ ==> {
            &&& r.0@ == seq![waiting_spinner()]
            &&& r.1
        },
        old(sys).bt_state == BluetoothSystemState::AUTHORIZE ==> {
            &&& r.0@ == Seq::<SystemAction>::empty()
            &&& !r.1
        },
        final(sys).bt_state == BluetoothSystemState::READ,
        final(sys).bt_state_params@ == old(sys).bt_state_params@,
        final(sys).nfc_state == old(sys).nfc_state,
        final(sys).nfc_state_params@ == old(sys).nfc_state_params@,
        final(sys).fingerprint_data == old(sys).fingerprint_data,
        final(sys).fingerprint_last_state == old(sys).fingerprint_last_state,
{
    match sys.bt_state {
        BluetoothSystemState::READ => {
            let r = vec![SystemAction::Show(
                Animation::MaterialSpinner,
                AnimationColor::Orange,
                AnimationType::Waiting,
                DisplayMessage::Waiting,
                0,
            )];
            assert(r@ =~= seq![waiting_spinner()]);
            (r, true)
        },
        BluetoothSystemState::AUTHORIZE => {
            let r = acontrol_system_set_bluetooth_state(sys, BluetoothSystemState::READ, None);
            (r, false)
        },
    }
}

/// Starts enrolling a finger at the slot of the "pos" parameter for the
/// owner of the "name" parameter. With a sensor (`has_sensor`), remembers
/// both in the fingerprint data and answers true: the sensor is then to be
/// asked to start enrolling with that data, and its answer handed to
/// `acontrol_system_fingerprint_enroll_result`. Without one nothing changes
/// and the answer is false.
pub fn acontrol_system_fingerprint_start_enroll(sys: &mut AControlSystem, has_sensor: bool, params: Params) -> (r: bool)
    requires
        has_sensor ==> {
            &&& params.spec_get("name"@) is Some
            &&& params.spec_get("pos"@) matches Some(p) && spec_parse_unsigned(p, 65536) is Some
        },
    ensures
        r == has_sensor,
        !has_sensor ==> final(sys).fingerprint_data == old(sys).fingerprint_data,
        has_sensor ==> {
            &&& final(sys).fingerprint_data.pos matches Some(pos)
                && spec_parse_unsigned(params.spec_get("pos"@).unwrap(), 65536) == Some(pos as nat)
            &&& final(sys).fingerprint_data.name matches Some(n) && Some(n@) == params.spec_get("name"@)
        },
        final(sys).nfc_state == old(sys).nfc_state,
        final(sys).nfc_state_params@ == old(sys).nfc_state_params@,
        final(sys).bt_state == old(sys).bt_state,
        final(sys).bt_state_params@ == old(sys).bt_state_params@,
        final(sys).fingerprint_last_state == old(sys).fingerprint_last_state,
{
    if !has_sensor {
        return false;
    }
    let pos_text = params.get("pos").unwrap();
    let pos = parse_u16(pos_text.as_str()).unwrap();
    let name = params.get("name").unwrap();
    sys.fingerprint_data.pos = Some(pos);
    sys.fingerprint_data.name = Some(name);
    true
}

/// The outcome of starting an enrollment, from what the sensor answered
/// (None where there is no sensor): Ok unless the sensor refused, which is
/// "Error starting enrollment".
pub fn acontrol_system_fingerprint_enroll_result(answer: Option<bool>) -> (r: Result<(), String>)
    ensures
        answer == Some(false) ==> (r matches Err(e) && e@ == "Error starting enrollment"@),
        answer != Some(false) ==> r is Ok,
{
    if answer == Some(false) {
        return Err("Error starting enrollment".to_owned());
    }
    Ok(())
}

/// The outcome of deleting every enrolled finger, from what the sensor
/// answered when asked to (None where there is no sensor): Ok unless the
/// sensor refused, which is "Error deleting all fingerprints".
pub fn acontrol_system_fingerprint_delete_all(answer: Option<bool>, _params: Params) -> (r: Result<(), String>)
    ensures
        answer == Some(false) ==> (r matches Err(e) && e@ == "Error deleting all fingerprints"@),
        answer != Some(false) ==> r is Ok,
{
    if answer == Some(false) {
        return Err("Error deleting all fingerprints".to_owned());
    }
    Ok(())
}

/// The keys to give the NFC reader, where there is one (`has_reader`): key
/// A and key B, as given. Their answer goes to `mifare_keys_taken`.
pub fn acontrol_system_set_mifare_keys(has_reader: bool, key_a: &Vec<u8>, key_b: &Vec<u8>) -> (r: Option<(Vec<u8>, Vec<u8>)>)
    ensures
        r is None <==> !has_reader,
        r matches Some((a, b)) ==> a@ == key_a@ && b@ == key_b@,
{
    if !has_reader {
        return None;
    }
    Some((copy_bytes(key_a), copy_bytes(key_b)))
}

/// Whether the reader took the MIFARE keys, from what it answered (None
/// where there is no reader).
pub fn mifare_keys_taken(answer: Option<Result<(), String>>) -> (r: bool)
    ensures
        r <==> answer matches Some(Ok(_)),
{
    match answer {
        Some(Ok(())) => true,
        _ => false,
    }
}

/// The driver slots of the system.
#[derive(Debug, Clone, Copy, PartialEq, Eq, Structural)]
pub enum DriverSlot {
    Log,
    Bluetooth,
    Fingerprint,
    Nfc,
    Audio,
    Display,
    Persist,
}

/// Which driver slots hold a driver.
#[derive(Debug, Clone, Copy, PartialEq, Eq, Structural)]
pub struct LoadedDrivers {
    pub log: bool,
    pub bluetooth: bool,
    pub fingerprint: bool,
    pub nfc: bool,
    pub audio: bool,
    pub display: bool,
    pub persist: bool,
}

pub open spec fn slot_loaded(l: LoadedDrivers, s: DriverSlot) -> bool {
    match s {
        DriverSlot::Log => l.log,
        DriverSlot::Bluetooth => l.bluetooth,
        DriverSlot::Fingerprint => l.fingerprint,
        DriverSlot::Nfc => l.nfc,
        DriverSlot::Audio => l.audio,
        DriverSlot::Display => l.display,
        DriverSlot::Persist => l.persist,
    }
}

/// The order in which the drivers start: log, Bluetooth, fingerprint, NFC,
/// audio, display (the persistence driver is kept as given).
pub open spec fn init_order() -> Seq<DriverSlot> {
    seq![DriverSlot::Log, DriverSlot::Bluetooth, DriverSlot::Fingerprint, DriverSlot::Nfc, DriverSlot::Audio, DriverSlot::Display]
}

/// The order in which the drivers are unloaded: Bluetooth, audio, NFC,
/// fingerprint, persistence, log.
pub open spec fn end_order() -> Seq<DriverSlot> {
    seq![DriverSlot::Bluetooth, DriverSlot::Audio, DriverSlot::Nfc, DriverSlot::Fingerprint, DriverSlot::Persist, DriverSlot::Log]
}

/// The slots of `order` that hold a driver, in that order.
pub open spec fn present_slots(order: Seq<DriverSlot>, l: LoadedDrivers) -> Seq<DriverSlot>
    decreases order.len(),
{
    if order.len() == 0 {
        Seq::empty()
    } else {
        let rest = present_slots(order.drop_last(), l);
        if slot_loaded(l, order.last()) { rest.push(order.last()) } else { rest }
    }
}

/// Where a run of driver calls (start-up or shutdown) stands.
#[derive(Debug, Clone, PartialEq, Eq)]
pub enum SequenceStep {
    /// Call the driver of this slot next and hand its answer back.
    Call(DriverSlot),
    /// The driver of this slot failed; the slots before it went through.
    Failed(DriverSlot, Vec<DriverSlot>),
    /// Every driver went through; these are their slots, in order.
    Finished(Vec<DriverSlot>),
}

/// The step after the drivers of `present` answered `answers`, one each
/// from the first: the first error stops the run at its driver; after as
/// many successes as there are drivers the run is finished; else the next
/// driver is called.
pub open spec fn spec_sequence_step(present: Seq<DriverSlot>, answers: Seq<Result<(), String>>, r: SequenceStep) -> bool {
    match r {
        SequenceStep::Call(s) => answers.len() < present.len()
            && (forall|i: int| 0 <= i < answers.len() ==> #[trigger] answers[i] is Ok)
            && s == present[answers.len() as int],
        SequenceStep::Failed(s, done) => exists|j: int| #![trigger answers[j]]
            0 <= j < answers.len() && j < present.len() && answers[j] is Err
                && (forall|i: int| 0 <= i < j ==> #[trigger] answers[i] is Ok)
                && s == present[j] && done@ == present.take(j),
        SequenceStep::Finished(done) => answers.len() >= present.len()
            && (forall|i: int| 0 <= i < present.len() ==> #[trigger] answers[i] is Ok)
            && done@ == present,
    }
}

fn present_in(order: &Vec<DriverSlot>, l: LoadedDrivers) -> (r: Vec<DriverSlot>)
    ensures
        r@ == present_slots(order@, l),
{
    let mut r: Vec<DriverSlot> = Vec::new();
    let mut i: usize = 0;
    while i < order.len()
        invariant
            i <= order.len(),
            r@ == present_slots(order@.take(i as int), l),
        decreases order.len() - i,
    {
        assert(order@.take(i + 1).drop_last() =~= order@.take(i as int));
        let s = order[i];
        let loaded = match s {
            DriverSlot::Log => l.log,
            DriverSlot::Bluetooth => l.bluetooth,
            DriverSlot::Fingerprint => l.fingerprint,
            DriverSlot::Nfc => l.nfc,
            DriverSlot::Audio => l.audio,
            DriverSlot::Display => l.display,
            DriverSlot::Persist => l.persist,
        };
        if loaded {
            r.push(s);
        }
        i = i + 1;
    }
    assert(order@.take(order.len() as int) =~= order@);
    r
}

fn slots_prefix(v: &Vec<DriverSlot>, n: usize) -> (r: Vec<DriverSlot>)
    requires
        n <= v.len(),
    ensures
        r@ == v@.take(n as int),
{
    let mut r: Vec<DriverSlot> = Vec::new();
    let mut i: usize = 0;
    while i < n
        invariant
            i <= n <= v.len(),
            r@ == v@.take(i as int),
        decreases n - i,
    {
        r.push(v[i]);
        i = i + 1;
        assert(r@ =~= v@.take(i as int));
    }
    r
}

fn sequence_step(present: &Vec<DriverSlot>, answers: &Vec<Result<(), String>>) -> (r: SequenceStep)
    ensures
        spec_sequence_step(present@, answers@, r),
{
    let mut i: usize = 0;
    while i < answers.len() && i < present.len()
        invariant
            i <= answers.len(),
            i <= present.len(),
            forall|k: int| 0 <= k < i ==> #[trigger] answers@[k] is Ok,
        decreases answers.len() - i,
    {
        if answers[i].is_err() {
            let done = slots_prefix(present, i);
            let r = SequenceStep::Failed(present[i], done);
            assert(answers@[i as int] is Err);
            return r;
        }
        i = i + 1;
    }
    if answers.len() < present.len() {
        SequenceStep::Call(present[answers.len()])
    } else {
        let done = slots_prefix(present, present.len());
        assert(present@.take(present.len() as int) =~= present@);
        SequenceStep::Finished(done)
    }
}

/// Starting the drivers that are there (`loaded`), in the order of
/// `init_order`, after those started so far answered `answers`: the next to
/// start, or the first that failed with those started before it, or all of
/// them started (see `spec_sequence_step`).
pub fn acontrol_system_init_drivers(loaded: LoadedDrivers, answers: &Vec<Result<(), String>>) -> (r: SequenceStep)
    ensures
        spec_sequence_step(present_slots(init_order(), loaded), answers@, r),
{
    let order = vec![
        DriverSlot::Log,
        DriverSlot::Bluetooth,
        DriverSlot::Fingerprint,
        DriverSlot::Nfc,
        DriverSlot::Audio,
        DriverSlot::Display,
    ];
    assert(order@ =~= init_order());
    let present = present_in(&order, loaded);
    sequence_step(&present, answers)
}

/// Shutting the system down: unloading the drivers that are there
/// (`loaded`), in the order of `end_order`, after those unloaded so far
/// answered `answers`: the next to unload, or the first that failed with
/// those unloaded before it (their slots are emptied, the rest stay), or
/// all of them unloaded (see `spec_sequence_step`).
pub fn acontrol_system_end(loaded: LoadedDrivers, answers: &Vec<Result<(), String>>) -> (r: SequenceStep)
    ensures
        spec_sequence_step(present_slots(end_order(), loaded), answers@, r),
{
    let order = vec![
        DriverSlot::Bluetooth,
        DriverSlot::Audio,
        DriverSlot::Nfc,
        DriverSlot::Fingerprint,
        DriverSlot::Persist,
        DriverSlot::Log,
    ];
    assert(order@ =~= end_order());
    let present = present_in(&order, loaded);
    sequence_step(&present, answers)
}

/// The MIFARE key used where none is given: six bytes 0xFF.
pub open spec fn default_mifare_key_text() -> Seq<char> {
    "0xFF,0xFF,0xFF,0xFF,0xFF,0xFF"@
}

/// The MIFARE key of the program's options: the given text, or the default
/// key, read as comma-separated hexadecimal bytes (see `spec_key_bytes`);
/// None where it does not read, or is not six bytes long.
pub fn mifare_key_option(text: Option<&str>) -> (r: Option<Vec<u8>>)
    ensures
        ({
            let t = match text {
                Some(t) => t@,
                None => default_mifare_key_text(),
            };
            &&& r matches Some(v) ==> spec_key_bytes(t) == Some(v@) && v@.len() == 6
            &&& r is None ==> (spec_key_bytes(t) is None || spec_key_bytes(t)->0.len() != 6)
        }),
{
    let t = match text {
        Some(t) => t,
        None => "0xFF,0xFF,0xFF,0xFF,0xFF,0xFF",
    };
    match parse_key_bytes(t) {
        Some(v) => if v.len() == 6 { Some(v) } else { None },
        None => None,
    }
}

/// The host the web server binds to where none is given.
pub fn http_default_host() -> (r: &'static str)
    ensures
        r@ == "localhost"@,
{
    "localhost"
}

/// The port the web server listens on where none is given.
pub fn http_default_port() -> (r: u32)
    ensures
        r == 8088,
{
    8088
}

/// How each answer looks and sounds: every answer plays its sound, then
/// blinks three times with "Done"; the blink is green exactly for the
/// answers that let in, add or restore, red otherwise; it means an error
/// exactly for a refusal and a failed addition. The sound is the grant
/// melody exactly for a grant, the denial melody exactly for a refusal, the
/// welcome exactly for an added card, the success sound exactly for a
/// restored card, and the error sound for the failures. Only a grant opens
/// the door and only a refusal records one. A card that was added is shown
/// the same green success blink as a card that is let in.
pub proof fn lemma_feedback_look_and_sound(f: Feedback)
    ensures
        spec_feedback_actions(f).len() >= 3,
        spec_feedback_actions(f)[1] matches SystemAction::Show(a, c, t, m, n) && a == Animation::Blink && m
            == DisplayMessage::Done && n == 3 && (c == AnimationColor::Green <==> (f == Feedback::Granted || f
            == Feedback::Added || f == Feedback::Restored)) && (c == AnimationColor::Red <==> !(f == Feedback::Granted
            || f == Feedback::Added || f == Feedback::Restored)) && (t == AnimationType::Error <==> (f
            == Feedback::Denied || f == Feedback::AddFailed)) && (t != AnimationType::Error ==> t
            == AnimationType::Success),
        spec_feedback_actions(f)[0] matches SystemAction::Play(e) && (e == AudioEvent::Granted <==> f
            == Feedback::Granted) && (e == AudioEvent::Denied <==> f == Feedback::Denied) && (e == AudioEvent::New
            <==> f == Feedback::Added) && (e == AudioEvent::Success <==> f == Feedback::Restored) && (e
            == AudioEvent::Error <==> (f == Feedback::AddFailed || f == Feedback::RestoreFailed)),
        spec_feedback_actions(f).contains(SystemAction::RunScript(ScriptKind::Granted)) <==> f == Feedback::Granted,
        spec_feedback_actions(f).contains(SystemAction::RunScript(ScriptKind::Denied)) <==> f == Feedback::Denied,
        spec_feedback_actions(Feedback::Added)[1] == spec_feedback_actions(Feedback::Granted)[1],
        (f == Feedback::Granted || f == Feedback::Denied) ==> spec_feedback_actions(f).len() == 5
            && spec_feedback_actions(f)[2] == SystemAction::WhenAnimationEndsShowWaiting
            && spec_feedback_actions(f)[3] == SystemAction::RunScript(
            if f == Feedback::Granted { ScriptKind::Granted } else { ScriptKind::Denied },
        ) && spec_feedback_actions(f)[4] == SystemAction::ClearDisplay,
        !(f == Feedback::Granted || f == Feedback::Denied) ==> spec_feedback_actions(f).len() == 3
            && spec_feedback_actions(f)[2] == SystemAction::WaitAnimationEnds,
{
    let a = spec_feedback_actions(f);
    if f == Feedback::Granted {
        assert(a[3] == SystemAction::RunScript(ScriptKind::Granted));
    }
    if f == Feedback::Denied {
        assert(a[3] == SystemAction::RunScript(ScriptKind::Denied));
    }
}

/// What a finger tells the user: only an authorized finger plays the grant
/// melody or opens the door; a refused finger plays the denial melody, the
/// same sound as a refused card, blinks red for an error and records the
/// refusal; a finger read in error plays the error sound and blinks red;
/// success and enrollment blink green.
pub proof fn lemma_finger_look_and_sound(state: FingerprintState, enrolling: bool)
    ensures
        forall|i: int|
            0 <= i < finger_actions(state, enrolling).len() ==> (#[trigger] finger_actions(state, enrolling)[i]
                == SystemAction::Play(AudioEvent::Granted) ==> state == FingerprintState::AUTHORIZED),
        forall|i: int|
            0 <= i < finger_actions(state, enrolling).len() ==> (#[trigger] finger_actions(state, enrolling)[i]
                == SystemAction::RunScript(ScriptKind::Granted) ==> state == FingerprintState::AUTHORIZED),
        state == FingerprintState::AUTHORIZED ==> finger_actions(state, enrolling)[0] == SystemAction::Play(
            AudioEvent::Granted) && finger_actions(state, enrolling).contains(SystemAction::RunScript(ScriptKind::Granted)),
        state == FingerprintState::NOT_AUTHORIZED ==> {
            &&& finger_actions(state, enrolling)[0] == spec_feedback_actions(Feedback::Denied)[0]
            &&& finger_actions(state, enrolling)[0] == SystemAction::Play(AudioEvent::Denied)
            &&& finger_actions(state, enrolling)[1] matches SystemAction::Show(_, c, t, _, _) && c == AnimationColor::Red
                && t == AnimationType::Error
            &&& finger_actions(state, enrolling).contains(SystemAction::RunScript(ScriptKind::Denied))
        },
        state == FingerprintState::ERROR ==> (finger_actions(state, enrolling)[0] == SystemAction::Play(AudioEvent::Error)
            && (finger_actions(state, enrolling)[1] matches SystemAction::Show(_, c, _, _, _) && c == AnimationColor::Red)),
        (state == FingerprintState::SUCCESS || (state == FingerprintState::ENROLL && enrolling)) ==> (finger_actions(
            state,
            enrolling,
        )[1] matches SystemAction::Show(_, c, t, _, _) && c == AnimationColor::Green && t == AnimationType::Success),
        waiting_spinner() == SystemAction::Show(
            Animation::MaterialSpinner,
            AnimationColor::Orange,
            AnimationType::Waiting,
            DisplayMessage::Waiting,
            0,
        ),
        state == FingerprintState::IDLE ==> finger_actions(state, enrolling) == seq![SystemAction::ClearDisplay],
        state == FingerprintState::READING ==> finger_actions(state, enrolling) == seq![waiting_spinner()],
        state == FingerprintState::WAITING ==> finger_actions(state, enrolling) == state_entry_actions(true),
        state == FingerprintState::AUTHORIZED ==> finger_actions(state, enrolling) == spec_feedback_actions(
            Feedback::Granted,
        ),
        state == FingerprintState::NOT_AUTHORIZED ==> finger_actions(state, enrolling) == spec_feedback_actions(
            Feedback::Denied,
        ).update(1, SystemAction::Show(Animation::BlinkLoop, AnimationColor::Red, AnimationType::Error, DisplayMessage::Done, 3)),
        state == FingerprintState::ERROR ==> finger_actions(state, enrolling) == spec_feedback_actions(Feedback::AddFailed),
        state == FingerprintState::SUCCESS ==> finger_actions(state, enrolling) == seq![
            SystemAction::Play(AudioEvent::Success),
            SystemAction::Show(Animation::BlinkLoop, AnimationColor::Green, AnimationType::Success, DisplayMessage::Done, 0),
        ],
        state == FingerprintState::ENROLL ==> finger_actions(state, enrolling) == if enrolling {
            spec_feedback_actions(Feedback::Added).update(
                1,
                SystemAction::Show(Animation::BlinkLoop, AnimationColor::Green, AnimationType::Success, DisplayMessage::Done, 3),
            )
        } else {
            Seq::empty()
        },
{
    let a = finger_actions(state, enrolling);
    assert(spec_feedback_actions(Feedback::Denied).update(
        1,
        SystemAction::Show(Animation::BlinkLoop, AnimationColor::Red, AnimationType::Error, DisplayMessage::Done, 3),
    ) =~= finger_actions(FingerprintState::NOT_AUTHORIZED, enrolling));
    assert(spec_feedback_actions(Feedback::Added).update(
        1,
        SystemAction::Show(Animation::BlinkLoop, AnimationColor::Green, AnimationType::Success, DisplayMessage::Done, 3),
    ) =~= finger_actions(FingerprintState::ENROLL, true));
    if state == FingerprintState::AUTHORIZED {
        assert(a[3] == SystemAction::RunScript(ScriptKind::Granted));
    }
    if state == FingerprintState::NOT_AUTHORIZED {
        assert(a[3] == SystemAction::RunScript(ScriptKind::Denied));
    }
}

/// A card is let in exactly when its signature block reads back as the card
/// signature and it is on the list; every other card that gets an answer is
/// refused.
pub proof fn lemma_granted_iff_signed_and_listed(read: Option<Seq<u8>>, found: bool)
    ensures
        spec_read_feedback(read, found) == Some(Feedback::Granted) <==> (read == Some(card_signature()) && found),
        spec_read_feedback(read, found) is Some ==> spec_read_feedback(read, found) == Some(Feedback::Granted)
            || spec_read_feedback(read, found) == Some(Feedback::Denied),
{
}

/// What a finished handling tells the user; nothing while it still waits on
/// a call.
pub open spec fn step_actions(r: TagStep) -> Seq<SystemAction> {
    match r {
        TagStep::Finish(a) => a@,
        TagStep::Call(_, _) => Seq::empty(),
    }
}

/// Reading a card, where there is a card list: the reader is asked for
/// block 1 of that card; only where it answers with the card signature is the
/// list asked for that card; and the card is let in exactly when the block
/// held the signature and the list found the card. Each step follows the
/// previous one's call with the answer the drivers gave. The NFC side stays
/// in reading.
pub proof fn lemma_find_tag_grants_iff_signed_and_listed(
    uuid: Seq<u8>,
    name: Option<Seq<u8>>,
    start: TagStep,
    read: TagAnswer,
    first: TagStep,
    found: TagAnswer,
    second: TagStep,
)
    requires
        spec_tag_start(NFCSystemState::READ, true, uuid, name, start),
        start matches TagStep::Call(run, _) ==> spec_tag_next(run.phase, run.uuid@, opt_bytes(run.name), run.has_store, read, first),
        first matches TagStep::Call(run, _) ==> spec_tag_next(run.phase, run.uuid@, opt_bytes(run.name), run.has_store, found, second),
    ensures
        start matches TagStep::Call(_, c) && c@ == TagRequest::ReadData(uuid, 1, 0),
        nfc_state_after_tag(NFCSystemState::READ) == NFCSystemState::READ,
        first is Call <==> answer_block(read) == Some(card_signature()),
        first matches TagStep::Call(_, c) ==> c@ == TagRequest::NfcFind(uuid) && second is Finish,
        ({
            let told = if first is Call { step_actions(second) } else { step_actions(first) };
            told == spec_feedback_actions(Feedback::Granted) <==> (answer_block(read) == Some(card_signature())
                && answer_ok(found))
        }),
{
    let granted = spec_feedback_actions(Feedback::Granted);
    assert(spec_feedback_actions(Feedback::Denied)[0] != granted[0]);
    assert(Seq::<SystemAction>::empty().len() != granted.len());
}

/// Writing a card, where there is a card list: the reader is asked to write
/// the card signature to block 1 of that card; only where that went through
/// is the list asked for the card; only where the list does not have it and
/// an owner name was given is the card added, under that name; and the card
/// is welcomed exactly when it was written, was not on the list and was
/// added. Each step follows the previous one's call with the answer the
/// drivers gave.
pub proof fn lemma_find_tag_write_adds_unlisted(
    uuid: Seq<u8>,
    name: Option<Seq<u8>>,
    start: TagStep,
    written: TagAnswer,
    first: TagStep,
    listed: TagAnswer,
    second: TagStep,
    added: TagAnswer,
    third: TagStep,
)
    requires
        spec_tag_start(NFCSystemState::WRITE, true, uuid, name, start),
        start matches TagStep::Call(run, _) ==> spec_tag_next(run.phase, run.uuid@, opt_bytes(run.name), run.has_store, written, first),
        first matches TagStep::Call(run, _) ==> spec_tag_next(run.phase, run.uuid@, opt_bytes(run.name), run.has_store, listed, second),
        second matches TagStep::Call(run, _) ==> spec_tag_next(run.phase, run.uuid@, opt_bytes(run.name), run.has_store, added, third),
    ensures
        start matches TagStep::Call(_, c) && c@ == TagRequest::WriteData(uuid, 1, card_signature()),
        first is Call <==> answer_ok(written),
        first matches TagStep::Call(_, c) ==> c@ == TagRequest::NfcFind(uuid),
        first is Call ==> (second is Call <==> (!answer_ok(listed) && name is Some)),
        first is Call ==> (second matches TagStep::Call(_, c) ==> c@ == TagRequest::NfcAdd(uuid, name->0) && third is Finish),
        ({
            let told = if first is Finish {
                step_actions(first)
            } else if second is Finish {
                step_actions(second)
            } else {
                step_actions(third)
            };
            told == spec_feedback_actions(Feedback::Added) <==> (answer_ok(written) && !answer_ok(listed) && name is Some
                && answer_ok(added))
        }),
{
    let welcome = spec_feedback_actions(Feedback::Added);
    assert(spec_feedback_actions(Feedback::AddFailed)[0] != welcome[0]);
    assert(Seq::<SystemAction>::empty().len() != welcome.len());
}

/// Two cards after any NFC state, the system reads cards again: authorizing
/// is followed by writing, and writing and restoring by reading.
pub proof fn lemma_nfc_back_to_reading(state: NFCSystemState)
    ensures
        nfc_state_after_tag(nfc_state_after_tag(state)) == NFCSystemState::READ,
        state != NFCSystemState::AUTHORIZE ==> nfc_state_after_tag(state) == NFCSystemState::READ,
        nfc_state_after_tag(NFCSystemState::AUTHORIZE) == NFCSystemState::WRITE,
{
}

/// A card that was given the signature is let in when it is read back and on
/// the list: whatever the card held before, the reads that check it give back
/// the signature that the write put in its signature block.
pub proof fn lemma_signed_card_reads_back(mem: Map<u8, Seq<u8>>)
    ensures
        ({
            let written = apply_steps(mem, write_plan_steps(NFC_CARD_SIGNATURE_BLOCK, card_signature()));
            let block = read_back(written, read_plan_steps(NFC_CARD_SIGNATURE_BLOCK, 0));
            &&& block == card_signature()
            &&& spec_card_check(block) == CardCheck::Signed
            &&& spec_read_feedback(Some(block), true) == Some(Feedback::Granted)
        }),
{
    assert(block_count(card_signature().len()) == 1);
    lemma_write_then_read(mem, NFC_CARD_SIGNATURE_BLOCK, card_signature());
    assert(padded(card_signature()) =~= card_signature());
}

} // verus!
