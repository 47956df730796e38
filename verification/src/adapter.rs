//! The desk's port: the operations that a controller may ask of it, and the
//! part of each that is computed rather than sent or received.

use crate::flexispot::command::{FlexispotCommand, FlexispotPreset};
use crate::flexispot::query::{
    decode_span,
    split_spans,
    tenths_of,
    FlexispotCurrentHeight,
    FlexispotPacket,
    FlexispotQueryResult,
    PacketView,
};
use std::time::Duration;
use vstd::prelude::*;

verus! {

/// Number of bytes asked of the serial link in one poll.
pub const READ_BUFFER_LEN: usize = 512;

/// One operation of the port. Whoever owns the serial link carries each out
/// to its end before it takes up the next.
#[derive(Debug, Clone, Copy, PartialEq, Eq, Structural)]
pub enum PortOperation {
    /// Send the wake frame.
    Wakeup,
    /// Leave the link alone for the settle time: after the wake frame the
    /// desk takes no command until that time has passed.
    FriendlySleep,
    /// Send the frame that recalls the preset.
    CallPreset(FlexispotPreset),
    /// Read one buffer from the link and take the height from it.
    GetDeskHeight,
}

/// The most recent height among packets given in the order in which they
/// arrived: that of the last packet that carries one.
pub open spec fn latest_height(packets: Seq<PacketView>) -> Option<nat>
    decreases packets.len(),
{
    if packets.len() == 0 {
        None
    } else {
        match packets.last() {
            PacketView::CurrentHeight(tenths) => Some(tenths),
            _ => latest_height(packets.drop_last()),
        }
    }
}

/// The packets of a received buffer, in order.
pub open spec fn decode_buffer(buffer: Seq<u8>) -> Seq<PacketView> {
    split_spans(buffer).map_values(|span: Seq<u8>| decode_span(span))
}

/// The height that a received buffer reports, if it reports one.
pub open spec fn desk_height(buffer: Seq<u8>) -> Option<nat> {
    latest_height(decode_buffer(buffer))
}

/// The port's rules, without the serial link: which command each operation
/// sends, how long the settle time is, and what height a buffer reports.
#[derive(Debug)]
pub struct FlexispotMqttAdapterImpl {
    sleep_duration: Duration,
}

impl FlexispotMqttAdapterImpl {
    /// The settle time that this port was made with.
    pub closed spec fn sleep_duration(&self) -> Duration {
        self.sleep_duration
    }

    /// The rules of a port that lets the desk settle for `sleep_duration`.
    pub fn new(sleep_duration: Duration) -> (adapter: Self)
        ensures
            adapter.sleep_duration() == sleep_duration,
    {
        Self { sleep_duration }
    }

    /// The height that a buffer read from the link reports: the packets are
    /// gone through from the last received to the first, and the first
    /// height met is the answer. `None` is an ordinary answer, given when
    /// the desk sleeps or is switched off.
    pub fn get_desk_height(&self, buffer: &[u8]) -> (height: Option<FlexispotCurrentHeight>)
        ensures
            tenths_of(height) == desk_height(buffer@),
    {
        let packets = FlexispotQueryResult::new(buffer).parse();
        let ghost all = decode_buffer(buffer@);
        let mut left: usize = packets.len();
        assert(all.take(left as int) =~= all);
        while left > 0
            invariant
                left <= packets@.len(),
                all == decode_buffer(buffer@),
                all.len() == packets@.len(),
                forall|i: int| 0 <= i < packets@.len() ==> (#[trigger] packets@[i])@ == all[i],
                latest_height(all) == latest_height(all.take(left as int)),
            decreases left,
        {
            left -= 1;
            assert(all.take(left + 1).drop_last() =~= all.take(left as int));
            match packets[left] {
                FlexispotPacket::Unknown => {},
                FlexispotPacket::Sleep => {},
                FlexispotPacket::CurrentHeight(height) => {
                    return Some(height);
                },
            }
        }
        None
    }

    /// The command that wakes the desk.
    pub fn wakeup(&self) -> (command: FlexispotCommand)
        ensures
            command == FlexispotCommand::Wakeup,
    {
        FlexispotCommand::Wakeup
    }

    /// How long the link is left alone after the wake frame.
    pub fn friendly_sleep(&self) -> (pause: Duration)
        ensures
            pause == self.sleep_duration(),
    {
        self.sleep_duration
    }

    /// The command that recalls a preset.
    pub fn call_preset(&self, preset: &FlexispotPreset) -> (command: FlexispotCommand)
        ensures
            command == preset.command(),
    {
        FlexispotCommand::from(preset)
    }
}

/// The answer of `latest_height` is the height of a packet after which no
/// packet carries a height; there is no answer exactly when no packet
/// carries one.
pub proof fn lemma_latest_height_is_last(packets: Seq<PacketView>)
    ensures
        match latest_height(packets) {
            Some(tenths) => exists|i: int|
                0 <= i < packets.len() && #[trigger] packets[i] == PacketView::CurrentHeight(
                    tenths,
                ) && forall|j: int| i < j < packets.len() ==> !(#[trigger] packets[j] is CurrentHeight),
            None => forall|i: int|
                0 <= i < packets.len() ==> !(#[trigger] packets[i] is CurrentHeight),
        },
    decreases packets.len(),
{
    if packets.len() > 0 {
        let init = packets.drop_last();
        let last = packets.len() - 1;
        match packets.last() {
            PacketView::CurrentHeight(_) => {},
            _ => {
                lemma_latest_height_is_last(init);
                match latest_height(init) {
                    Some(tenths) => {
                        let i = choose|i: int|
                            0 <= i < init.len() && #[trigger] init[i] == PacketView::CurrentHeight(
                                tenths,
                            ) && forall|j: int|
                                i < j < init.len() ==> !(#[trigger] init[j] is CurrentHeight);
                        assert forall|j: int| i < j < packets.len() implies !(
                        #[trigger] packets[j] is CurrentHeight) by {
                            if j < last {
                                assert(packets[j] == init[j]);
                            }
                        }
                    },
                    None => {
                        assert forall|i: int| 0 <= i < packets.len() implies !(
                        #[trigger] packets[i] is CurrentHeight) by {
                            if i < last {
                                assert(packets[i] == init[i]);
                            }
                        }
                    },
                }
            },
        }
    }
}

/// A buffer whose packets are all unknown or sleep reports no height.
pub proof fn lemma_no_reading_no_height(buffer: Seq<u8>)
    requires
        forall|i: int|
            0 <= i < decode_buffer(buffer).len() ==> !(
            #[trigger] decode_buffer(buffer)[i] is CurrentHeight),
    ensures
        desk_height(buffer) is None,
{
    lemma_latest_height_is_last(decode_buffer(buffer));
}

} // verus!
