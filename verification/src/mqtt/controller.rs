//! The controller's decisions: which topics it listens to, what an inbound
//! message asks of the port, in what order the port's operations are handed
//! out, and what a heartbeat publishes.

use crate::adapter::PortOperation;
use crate::flexispot::command::FlexispotPreset;
use crate::flexispot::query::{tenths_of, FlexispotCurrentHeight};
use vstd::prelude::*;
use vstd::utf8::encode_utf8_decode_utf8;

verus! {

/// Delivery guarantee asked of the broker.
#[derive(Debug, Clone, Copy, PartialEq, Eq, Structural)]
pub enum Qos {
    AtMostOnce,
    AtLeastOnce,
}

/// Topic that reports that the controller is alive.
pub const TOPIC_ONLINE: &'static str = "online";

/// Topic that reports the height of the desk.
pub const TOPIC_CURRENT_HEIGHT: &'static str = "desk/current-height";

/// Topic that reports the height that the desk is moving to.
pub const TOPIC_TARGET_HEIGHT: &'static str = "desk/target-height";

/// Topic that reports whether the desk is moving.
pub const TOPIC_HEIGHT_STATE: &'static str = "desk/height-state";

/// Topic that reports the position of the first preset's switch.
pub const TOPIC_PRESET1_GET: &'static str = "desk-switch/preset1/get";

/// The text `true`.
pub const PAYLOAD_TRUE: [u8; 4] = [0x74, 0x72, 0x75, 0x65];

/// The text `false`.
pub const PAYLOAD_FALSE: [u8; 5] = [0x66, 0x61, 0x6c, 0x73, 0x65];

/// The text `STOPPED`.
pub const PAYLOAD_STOPPED: [u8; 7] = [0x53, 0x54, 0x4f, 0x50, 0x50, 0x45, 0x44];

/// Number of heartbeats after which the heartbeat counter starts again.
pub const BEAT_CYCLE: u32 = 100;

/// The topic on which a recall of `preset` is asked for.
pub open spec fn preset_set_topic(preset: FlexispotPreset) -> Seq<char> {
    match preset {
        FlexispotPreset::Preset1 => "desk-switch/preset1/set"@,
        FlexispotPreset::Preset2 => "desk-switch/preset2/set"@,
        FlexispotPreset::Preset3 => "desk-switch/preset3/set"@,
        FlexispotPreset::Preset4 => "desk-switch/preset4/set"@,
    }
}

/// The preset whose recall a message asks for: the message arrives on that
/// preset's topic and its payload is the text `true`. Every other message
/// asks for nothing.
pub open spec fn requested_preset(topic: Seq<char>, payload: Seq<u8>) -> Option<FlexispotPreset> {
    if payload != PAYLOAD_TRUE@ {
        None
    } else if topic == preset_set_topic(FlexispotPreset::Preset1) {
        Some(FlexispotPreset::Preset1)
    } else if topic == preset_set_topic(FlexispotPreset::Preset2) {
        Some(FlexispotPreset::Preset2)
    } else if topic == preset_set_topic(FlexispotPreset::Preset3) {
        Some(FlexispotPreset::Preset3)
    } else if topic == preset_set_topic(FlexispotPreset::Preset4) {
        Some(FlexispotPreset::Preset4)
    } else {
        None
    }
}

/// The topic on which a recall of `preset` is asked for.
pub fn set_topic(preset: FlexispotPreset) -> (topic: &'static str)
    ensures
        topic@ == preset_set_topic(preset),
{
    match preset {
        FlexispotPreset::Preset1 => "desk-switch/preset1/set",
        FlexispotPreset::Preset2 => "desk-switch/preset2/set",
        FlexispotPreset::Preset3 => "desk-switch/preset3/set",
        FlexispotPreset::Preset4 => "desk-switch/preset4/set",
    }
}

fn same_bytes(left: &[u8], right: &[u8]) -> (same: bool)
    ensures
        same == (left@ == right@),
{
    if left.len() != right.len() {
        return false;
    }
    let mut at: usize = 0;
    while at < left.len()
        invariant
            left@.len() == right@.len(),
            at <= left@.len(),
            forall|i: int| 0 <= i < at ==> left@[i] == right@[i],
        decreases left@.len() - at,
    {
        if left[at] != right[at] {
            return false;
        }
        at += 1;
    }
    assert(left@ =~= right@);
    true
}

fn same_text(left: &str, right: &str) -> (same: bool)
    ensures
        same == (left@ == right@),
{
    proof {
        encode_utf8_decode_utf8(left@);
        encode_utf8_decode_utf8(right@);
    }
    same_bytes(left.as_bytes(), right.as_bytes())
}

/// Reads an inbound message: the preset whose recall it asks for, if any.
pub fn preset_of_message(topic: &str, payload: &[u8]) -> (preset: Option<FlexispotPreset>)
    ensures
        preset == requested_preset(topic@, payload@),
{
    if !same_bytes(payload, PAYLOAD_TRUE.as_slice()) {
        None
    } else if same_text(topic, set_topic(FlexispotPreset::Preset1)) {
        Some(FlexispotPreset::Preset1)
    } else if same_text(topic, set_topic(FlexispotPreset::Preset2)) {
        Some(FlexispotPreset::Preset2)
    } else if same_text(topic, set_topic(FlexispotPreset::Preset3)) {
        Some(FlexispotPreset::Preset3)
    } else if same_text(topic, set_topic(FlexispotPreset::Preset4)) {
        Some(FlexispotPreset::Preset4)
    } else {
        None
    }
}

/// A topic to listen to.
#[derive(Debug, Clone, Copy, PartialEq, Eq)]
pub struct Subscription {
    pub topic: &'static str,
    pub qos: Qos,
}

/// A message to hand to the broker.
#[derive(Debug, PartialEq, Eq)]
pub struct Publication {
    pub topic: &'static str,
    pub qos: Qos,
    pub retain: bool,
    pub payload: Vec<u8>,
}

/// A message to hand to the broker, its topic and payload as plain text.
pub struct PublicationView {
    pub topic: Seq<char>,
    pub qos: Qos,
    pub retain: bool,
    pub payload: Seq<u8>,
}

impl View for Publication {
    type V = PublicationView;

    open spec fn view(&self) -> PublicationView {
        PublicationView {
            topic: self.topic@,
            qos: self.qos,
            retain: self.retain,
            payload: self.payload@,
        }
    }
}

/// The decimal digits of a number, as text.
pub open spec fn decimal_text(number: nat) -> Seq<u8>
    decreases number,
{
    if number < 10 {
        seq![(0x30 + number) as u8]
    } else {
        decimal_text(number / 10).push((0x30 + number % 10) as u8)
    }
}

/// A height as text: its units and, unless it has no tenths, a point and
/// the tenths.
pub open spec fn height_text(tenths: nat) -> Seq<u8> {
    if tenths % 10 == 0 {
        decimal_text(tenths / 10)
    } else {
        decimal_text(tenths / 10).push(0x2e).push((0x30 + tenths % 10) as u8)
    }
}

/// The height, in tenths, that a heartbeat reports while the desk gives
/// none: a whole number of units that moves ten up with every heartbeat and
/// starts again below a hundred.
pub open spec fn placeholder_tenths(beat: nat) -> nat {
    10 * (((beat + 1) * 10) % 100)
}

/// The height, in tenths, that a heartbeat reports.
pub open spec fn reported_tenths(beat: nat, height: Option<nat>) -> nat {
    match height {
        Some(tenths) => tenths,
        None => placeholder_tenths(beat),
    }
}

/// What the heartbeat after `beat` earlier ones publishes, in order, given
/// the height that the desk reported.
pub open spec fn heartbeat_status(beat: nat, height: Option<nat>) -> Seq<PublicationView> {
    let shown = height_text(reported_tenths(beat, height));
    seq![
        PublicationView {
            topic: TOPIC_ONLINE@,
            qos: Qos::AtLeastOnce,
            retain: false,
            payload: PAYLOAD_TRUE@,
        },
        PublicationView {
            topic: TOPIC_CURRENT_HEIGHT@,
            qos: Qos::AtMostOnce,
            retain: false,
            payload: shown,
        },
        PublicationView {
            topic: TOPIC_TARGET_HEIGHT@,
            qos: Qos::AtMostOnce,
            retain: false,
            payload: shown,
        },
        PublicationView {
            topic: TOPIC_HEIGHT_STATE@,
            qos: Qos::AtMostOnce,
            retain: false,
            payload: PAYLOAD_STOPPED@,
        },
        PublicationView {
            topic: TOPIC_PRESET1_GET@,
            qos: Qos::AtLeastOnce,
            retain: false,
            payload: PAYLOAD_FALSE@,
        },
    ]
}

/// The operations of one recall, in the order in which the port carries
/// them out: wake the desk, let it settle, send the preset.
pub open spec fn recall_plan(preset: FlexispotPreset) -> Seq<PortOperation> {
    seq![PortOperation::Wakeup, PortOperation::FriendlySleep, PortOperation::CallPreset(preset)]
}

/// The operations that an inbound message asks for.
pub open spec fn dispatch_plan(request: Option<FlexispotPreset>) -> Seq<PortOperation> {
    match request {
        Some(preset) => recall_plan(preset),
        None => Seq::empty(),
    }
}

fn push_decimal(text: &mut Vec<u8>, number: u32)
    ensures
        final(text)@ == old(text)@ + decimal_text(number as nat),
    decreases number,
{
    if number >= 10 {
        push_decimal(text, number / 10);
    }
    let digit: u8 = (number % 10) as u8;
    text.push(0x30 + digit);
}

/// Writes a height, given in tenths, as text.
pub fn format_height(tenths: u32) -> (text: Vec<u8>)
    ensures
        text@ == height_text(tenths as nat),
{
    let mut text: Vec<u8> = Vec::new();
    push_decimal(&mut text, tenths / 10);
    let tenth: u8 = (tenths % 10) as u8;
    if tenth != 0 {
        text.push(0x2e);
        text.push(0x30 + tenth);
    }
    text
}

/// The controller's state: the port operations that were decided and not
/// yet handed out, and the count of heartbeats.
///
/// Two things drive it: inbound messages, which may ask for a recall, and
/// the heartbeat's ticks, which ask for the desk's height. What either asks
/// of the port goes to the end of one queue, and the queue is handed out
/// from its front, one operation at a time. So the port sees the requests
/// in the order in which they came, and the operations of one request
/// follow each other with nothing in between.
#[derive(Debug)]
pub struct MqttController {
    pending: Vec<PortOperation>,
    beat: u32,
}

impl MqttController {
    #[verifier::type_invariant]
    spec fn well_formed(self) -> bool {
        self.beat < BEAT_CYCLE
    }

    /// The operations decided and not yet handed out, the next one first.
    pub closed spec fn pending(&self) -> Seq<PortOperation> {
        self.pending@
    }

    /// The heartbeat counter: the heartbeats so far, counted in a cycle.
    pub closed spec fn beat(&self) -> nat {
        self.beat as nat
    }

    fn enqueue(&mut self, operation: PortOperation)
        ensures
            final(self).pending() == old(self).pending().push(operation),
            final(self).beat() == old(self).beat(),
    {
        proof {
            use_type_invariant(&*self);
        }
        let mut pending: Vec<PortOperation> = Vec::new();
        core::mem::swap(&mut self.pending, &mut pending);
        pending.push(operation);
        self.pending = pending;
    }

    /// A controller with nothing to do and no heartbeat behind it.
    pub fn new() -> (controller: Self)
        ensures
            controller.pending() == Seq::<PortOperation>::empty(),
            controller.beat() == 0,
    {
        MqttController { pending: Vec::new(), beat: 0 }
    }

    /// The topics to listen to: one for each preset, in their order.
    pub fn subscriptions() -> (topics: Vec<Subscription>)
        ensures
            topics@.len() == 4,
            topics@[0].topic@ == preset_set_topic(FlexispotPreset::Preset1),
            topics@[1].topic@ == preset_set_topic(FlexispotPreset::Preset2),
            topics@[2].topic@ == preset_set_topic(FlexispotPreset::Preset3),
            topics@[3].topic@ == preset_set_topic(FlexispotPreset::Preset4),
            forall|i: int| 0 <= i < 4 ==> (#[trigger] topics@[i]).qos == Qos::AtMostOnce,
    {
        let mut topics: Vec<Subscription> = Vec::new();
        topics.push(Subscription { topic: set_topic(FlexispotPreset::Preset1), qos: Qos::AtMostOnce });
        topics.push(Subscription { topic: set_topic(FlexispotPreset::Preset2), qos: Qos::AtMostOnce });
        topics.push(Subscription { topic: set_topic(FlexispotPreset::Preset3), qos: Qos::AtMostOnce });
        topics.push(Subscription { topic: set_topic(FlexispotPreset::Preset4), qos: Qos::AtMostOnce });
        topics
    }

    /// Whether every operation decided so far has been handed out.
    pub fn is_idle(&self) -> (idle: bool)
        ensures
            idle == (self.pending().len() == 0),
    {
        self.pending.len() == 0
    }

    /// Takes an inbound message. If it asks for the recall of a preset, the
    /// recall's operations are queued and the preset is returned; any other
    /// message changes nothing.
    pub fn on_message(&mut self, topic: &str, payload: &[u8]) -> (preset: Option<FlexispotPreset>)
        ensures
            preset == requested_preset(topic@, payload@),
            final(self).pending() == old(self).pending() + dispatch_plan(preset),
            final(self).beat() == old(self).beat(),
    {
        proof {
            use_type_invariant(&*self);
        }
        let preset = preset_of_message(topic, payload);
        if let Some(recalled) = preset {
            self.enqueue(PortOperation::Wakeup);
            self.enqueue(PortOperation::FriendlySleep);
            self.enqueue(PortOperation::CallPreset(recalled));
        }
        preset
    }

    /// Takes a tick of the heartbeat's timer: a poll of the desk's height is
    /// queued.
    pub fn on_tick(&mut self)
        ensures
            final(self).pending() == old(self).pending().push(PortOperation::GetDeskHeight),
            final(self).beat() == old(self).beat(),
    {
        self.enqueue(PortOperation::GetDeskHeight);
    }

    /// Hands out the operation that the port carries out next, if there is
    /// one: the one that has waited longest.
    pub fn next_operation(&mut self) -> (operation: Option<PortOperation>)
        ensures
            old(self).pending().len() == 0 ==> operation is None
                && final(self).pending() == old(self).pending(),
            old(self).pending().len() > 0 ==> operation == Some(old(self).pending()[0])
                && final(self).pending() == old(self).pending().drop_first(),
            final(self).beat() == old(self).beat(),
    {
        proof {
            use_type_invariant(&*self);
        }
        if self.pending.len() == 0 {
            None
        } else {
            let mut pending: Vec<PortOperation> = Vec::new();
            core::mem::swap(&mut self.pending, &mut pending);
            let operation = pending.remove(0);
            self.pending = pending;
            Some(operation)
        }
    }

    /// Ends a heartbeat: given the height that the poll gave, returns what
    /// to publish, in order, and counts the heartbeat.
    pub fn heartbeat(&mut self, height: Option<FlexispotCurrentHeight>) -> (status: Vec<Publication>)
        ensures
            status@.len() == 5,
            forall|i: int|
                0 <= i < 5 ==> (#[trigger] status@[i])@ == heartbeat_status(
                    old(self).beat(),
                    tenths_of(height),
                )[i],
            final(self).beat() == (old(self).beat() + 1) % (BEAT_CYCLE as nat),
            final(self).pending() == old(self).pending(),
    {
        proof {
            use_type_invariant(&*self);
        }
        let count: u32 = self.beat + 1;
        let tenths: u32 = match height {
            Some(h) => h.tenths(),
            None => 10 * ((count * 10) % 100),
        };
        let mut status: Vec<Publication> = Vec::new();
        status.push(
            Publication {
                topic: TOPIC_ONLINE,
                qos: Qos::AtLeastOnce,
                retain: false,
                payload: bytes_of(PAYLOAD_TRUE.as_slice()),
            },
        );
        status.push(
            Publication {
                topic: TOPIC_CURRENT_HEIGHT,
                qos: Qos::AtMostOnce,
                retain: false,
                payload: format_height(tenths),
            },
        );
        status.push(
            Publication {
                topic: TOPIC_TARGET_HEIGHT,
                qos: Qos::AtMostOnce,
                retain: false,
                payload: format_height(tenths),
            },
        );
        status.push(
            Publication {
                topic: TOPIC_HEIGHT_STATE,
                qos: Qos::AtMostOnce,
                retain: false,
                payload: bytes_of(PAYLOAD_STOPPED.as_slice()),
            },
        );
        status.push(
            Publication {
                topic: TOPIC_PRESET1_GET,
                qos: Qos::AtLeastOnce,
                retain: false,
                payload: bytes_of(PAYLOAD_FALSE.as_slice()),
            },
        );
        self.beat = count % BEAT_CYCLE;
        status
    }
}

fn bytes_of(text: &[u8]) -> (bytes: Vec<u8>)
    ensures
        bytes@ == text@,
{
    let mut bytes: Vec<u8> = Vec::new();
    let mut at: usize = 0;
    while at < text.len()
        invariant
            at <= text@.len(),
            bytes@ == text@.take(at as int),
        decreases text@.len() - at,
    {
        bytes.push(text[at]);
        at += 1;
    }
    bytes
}

/// A recall is not interrupted: whatever was decided before it and
/// whatever is decided after it, the queue holds its wake frame, its settle
/// time and its preset frame next to each other, so that no read of the
/// link falls between the two frames.
pub proof fn lemma_recall_is_uninterrupted(
    before: Seq<PortOperation>,
    preset: FlexispotPreset,
    after: Seq<PortOperation>,
)
    ensures
        (before + recall_plan(preset) + after).subrange(
            before.len() as int,
            before.len() as int + 3,
        ) == recall_plan(preset),
{
}

/// The payloads are the texts that their names say, one byte for each
/// character.
pub proof fn lemma_payloads_spell_their_names()
    ensures
        PAYLOAD_TRUE@ == "true"@.map_values(|c: char| c as u8),
        PAYLOAD_FALSE@ == "false"@.map_values(|c: char| c as u8),
        PAYLOAD_STOPPED@ == "STOPPED"@.map_values(|c: char| c as u8),
{
    reveal_strlit("true");
    reveal_strlit("false");
    reveal_strlit("STOPPED");
    assert(PAYLOAD_TRUE@ =~= "true"@.map_values(|c: char| c as u8));
    assert(PAYLOAD_FALSE@ =~= "false"@.map_values(|c: char| c as u8));
    assert(PAYLOAD_STOPPED@ =~= "STOPPED"@.map_values(|c: char| c as u8));
}

/// The topics of the four presets differ, so a message asks for at most
/// one recall, and a message with the payload `true` on a preset's topic
/// asks for that preset.
pub proof fn lemma_set_topic_names_preset(preset: FlexispotPreset)
    ensures
        requested_preset(preset_set_topic(preset), PAYLOAD_TRUE@) == Some(preset),
{
    reveal_strlit("desk-switch/preset1/set");
    reveal_strlit("desk-switch/preset2/set");
    reveal_strlit("desk-switch/preset3/set");
    reveal_strlit("desk-switch/preset4/set");
    let digit = 18int;
    assert("desk-switch/preset1/set"@[digit] == '1');
    assert("desk-switch/preset2/set"@[digit] == '2');
    assert("desk-switch/preset3/set"@[digit] == '3');
    assert("desk-switch/preset4/set"@[digit] == '4');
}

} // verus!
