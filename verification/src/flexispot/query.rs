//! Reading the desk's answers: cutting a received buffer into spans and
//! decoding each span into a packet.

use vstd::prelude::*;

verus! {

/// Marker that opens a frame; it never belongs to a span.
pub const DATA_PREFIX: u8 = 0x9b;

/// Marker that closes a frame; it never belongs to a span.
pub const DATA_SUFFIX: u8 = 0x9d;

/// The segments that show zero.
pub const DIGIT_0: u8 = 0x3f;

/// The segments that show one.
pub const DIGIT_1: u8 = 0x06;

/// The segments that show two.
pub const DIGIT_2: u8 = 0x5b;

/// The segments that show three.
pub const DIGIT_3: u8 = 0x4f;

/// The segments that show four.
pub const DIGIT_4: u8 = 0x66;

/// The segments that show five.
pub const DIGIT_5: u8 = 0x6d;

/// The segments that show six.
pub const DIGIT_6: u8 = 0x7c;

/// The segments that show seven.
pub const DIGIT_7: u8 = 0x07;

/// The segments that show eight.
pub const DIGIT_8: u8 = 0x7f;

/// The segments that show nine.
pub const DIGIT_9: u8 = 0x6f;

/// The seven-segment patterns of the digits 0 to 9, each at its own index.
pub const DIGIT_BYTES: [u8; 10] = [
    DIGIT_0,
    DIGIT_1,
    DIGIT_2,
    DIGIT_3,
    DIGIT_4,
    DIGIT_5,
    DIGIT_6,
    DIGIT_7,
    DIGIT_8,
    DIGIT_9,
];

/// The bits of a digit byte that light segments.
pub const MASK_DIGIT: u8 = 0x7f;

/// The bit of a digit byte that lights the decimal point.
pub const MASK_DOT: u8 = 0x80;

/// Number of bytes in a span that carries a display reading.
pub const PACKET_LEN: usize = 7;

/// Largest number that three digits can show.
pub const MAX_DISPLAY: u32 = 999;

/// The digit whose seven-segment pattern is `glyph`, if there is one.
pub open spec fn glyph_digit(glyph: u8) -> Option<u32> {
    if glyph == DIGIT_0 {
        Some(0u32)
    } else if glyph == DIGIT_1 {
        Some(1u32)
    } else if glyph == DIGIT_2 {
        Some(2u32)
    } else if glyph == DIGIT_3 {
        Some(3u32)
    } else if glyph == DIGIT_4 {
        Some(4u32)
    } else if glyph == DIGIT_5 {
        Some(5u32)
    } else if glyph == DIGIT_6 {
        Some(6u32)
    } else if glyph == DIGIT_7 {
        Some(7u32)
    } else if glyph == DIGIT_8 {
        Some(8u32)
    } else if glyph == DIGIT_9 {
        Some(9u32)
    } else {
        None
    }
}

/// The digit that a digit byte shows: its decimal point bit is set aside and
/// the remaining seven bits are looked up among the glyphs.
pub open spec fn digit_of(digit_byte: u8) -> Option<u32> {
    glyph_digit(digit_byte & MASK_DIGIT)
}

/// Whether a digit byte lights its decimal point.
pub open spec fn has_decimal_point(digit_byte: u8) -> bool {
    digit_byte & MASK_DOT != 0
}

/// Why three digit bytes do not give a height.
#[derive(Debug, Clone, Copy, PartialEq, Eq, Structural)]
pub enum FlexispotQueryError {
    /// All three digit bytes are zero: the display is dark.
    DeviceIsSleeped,
    /// The byte, as received, shows no digit.
    InvalidDigitByte(u8),
}

/// The exact value that a number on the display stands for, in tenths: with
/// the decimal point lit the last digit counts tenths, without it units.
pub open spec fn display_tenths(number: nat, point: bool) -> nat {
    if point {
        number
    } else {
        10 * number
    }
}

/// Whether some setting of the display shows `tenths`.
pub open spec fn can_display(tenths: nat) -> bool {
    tenths <= MAX_DISPLAY || (tenths % 10 == 0 && tenths <= 10 * MAX_DISPLAY)
}

/// What three digit bytes, left to right, say. Three zero bytes are the
/// sleep sentinel. Otherwise the first byte that shows no digit is reported;
/// if all three show one, the result is the height in tenths, the decimal
/// point being read from the middle byte.
pub open spec fn decode_digits(triple: Seq<u8>) -> Result<nat, FlexispotQueryError>
    recommends
        triple.len() == 3,
{
    if triple[0] == 0 && triple[1] == 0 && triple[2] == 0 {
        Err(FlexispotQueryError::DeviceIsSleeped)
    } else {
        match (digit_of(triple[0]), digit_of(triple[1]), digit_of(triple[2])) {
            (None, _, _) => Err(FlexispotQueryError::InvalidDigitByte(triple[0])),
            (Some(_), None, _) => Err(FlexispotQueryError::InvalidDigitByte(triple[1])),
            (Some(_), Some(_), None) => Err(FlexispotQueryError::InvalidDigitByte(triple[2])),
            (Some(d0), Some(d1), Some(d2)) => Ok(
                display_tenths((100 * d0 + 10 * d1 + d2) as nat, has_decimal_point(triple[1])),
            ),
        }
    }
}

/// A height read off the display. It is kept exactly, as a count of tenths
/// of the display's unit, and is always a value the display can show.
#[derive(Debug, Clone, Copy, PartialEq, Eq, Structural)]
pub struct FlexispotCurrentHeight(u32);

impl View for FlexispotCurrentHeight {
    type V = nat;

    /// The height in tenths.
    closed spec fn view(&self) -> nat {
        self.0 as nat
    }
}

impl FlexispotCurrentHeight {
    #[verifier::type_invariant]
    spec fn well_formed(self) -> bool {
        can_display(self.0 as nat)
    }

    fn digit_byte_to_u32(digit_byte: u8) -> (digit: Option<u32>)
        ensures
            digit == digit_of(digit_byte),
    {
        let glyph = digit_byte & MASK_DIGIT;
        let mut candidate: u32 = 0;
        while candidate < 10
            invariant
                candidate <= 10,
                glyph == digit_byte & MASK_DIGIT,
                forall|k: int| 0 <= k < candidate ==> DIGIT_BYTES@[k] != glyph,
            decreases 10 - candidate,
        {
            if DIGIT_BYTES[candidate as usize] == glyph {
                return Some(candidate);
            }
            candidate += 1;
        }
        None
    }

    /// Decodes the three digit bytes of a display reading.
    pub fn from_digit_bytes(digit_bytes: &[u8; 3]) -> (height: Result<Self, FlexispotQueryError>)
        ensures
            match height {
                Ok(h) => decode_digits(digit_bytes@) == Ok::<nat, FlexispotQueryError>(h@),
                Err(e) => decode_digits(digit_bytes@) == Err::<nat, FlexispotQueryError>(e),
            },
    {
        if digit_bytes[0] == 0 && digit_bytes[1] == 0 && digit_bytes[2] == 0 {
            return Err(FlexispotQueryError::DeviceIsSleeped);
        }
        let mut decoded: u32 = 0;
        let mut place: usize = 0;
        while place < 3
            invariant
                place <= 3,
                !(digit_bytes@[0] == 0 && digit_bytes@[1] == 0 && digit_bytes@[2] == 0),
                forall|k: int| 0 <= k < place ==> digit_of(#[trigger] digit_bytes@[k]) is Some,
                place == 0 ==> decoded == 0,
                place == 1 ==> decoded == digit_of(digit_bytes@[0])->0,
                place == 2 ==> decoded == 10 * digit_of(digit_bytes@[0])->0 + digit_of(
                    digit_bytes@[1],
                )->0,
                place == 3 ==> decoded == 100 * digit_of(digit_bytes@[0])->0 + 10 * digit_of(
                    digit_bytes@[1],
                )->0 + digit_of(digit_bytes@[2])->0,
            decreases 3 - place,
        {
            let digit_byte = digit_bytes[place];
            match Self::digit_byte_to_u32(digit_byte) {
                Some(digit) => {
                    decoded = decoded * 10 + digit;
                },
                None => {
                    return Err(FlexispotQueryError::InvalidDigitByte(digit_byte));
                },
            }
            place += 1;
        }
        let contains_decimal_point = (digit_bytes[1] & MASK_DOT) != 0;
        if contains_decimal_point {
            Ok(FlexispotCurrentHeight(decoded))
        } else {
            Ok(FlexispotCurrentHeight(decoded * 10))
        }
    }

    /// Makes the height of `tenths` tenths, if the display can show it.
    pub fn from_tenths(tenths: u32) -> (height: Option<Self>)
        ensures
            can_display(tenths as nat) <==> height is Some,
            height matches Some(h) ==> h@ == tenths,
    {
        if tenths <= MAX_DISPLAY || (tenths % 10 == 0 && tenths <= 10 * MAX_DISPLAY) {
            Some(FlexispotCurrentHeight(tenths))
        } else {
            None
        }
    }

    /// The height in tenths of the display's unit.
    pub fn tenths(&self) -> (tenths: u32)
        ensures
            tenths == self@,
            can_display(self@),
    {
        proof {
            use_type_invariant(self);
        }
        self.0
    }
}

/// A height that may be missing, in tenths.
pub open spec fn tenths_of(height: Option<FlexispotCurrentHeight>) -> Option<nat> {
    match height {
        Some(h) => Some(h@),
        None => None,
    }
}

/// What a packet says, with its height as a plain number of tenths.
pub enum PacketView {
    Unknown,
    Sleep,
    CurrentHeight(nat),
}

/// One span of a received buffer, decoded.
#[derive(Debug, Clone, Copy, PartialEq, Eq, Structural)]
pub enum FlexispotPacket {
    /// Not a display reading: the span is not seven bytes long, or one of
    /// its digit bytes shows no digit.
    Unknown,
    /// The display is dark.
    Sleep,
    /// The display shows this height.
    CurrentHeight(FlexispotCurrentHeight),
}

impl View for FlexispotPacket {
    type V = PacketView;

    open spec fn view(&self) -> PacketView {
        match self {
            FlexispotPacket::Unknown => PacketView::Unknown,
            FlexispotPacket::Sleep => PacketView::Sleep,
            FlexispotPacket::CurrentHeight(height) => PacketView::CurrentHeight(height@),
        }
    }
}

/// What a span says. Only a span of seven bytes can be a display reading,
/// and of those only the bytes at offsets 2, 3 and 4 are looked at.
pub open spec fn decode_span(span: Seq<u8>) -> PacketView {
    if span.len() != PACKET_LEN {
        PacketView::Unknown
    } else {
        match decode_digits(span.subrange(2, 5)) {
            Ok(tenths) => PacketView::CurrentHeight(tenths),
            Err(FlexispotQueryError::DeviceIsSleeped) => PacketView::Sleep,
            Err(FlexispotQueryError::InvalidDigitByte(_)) => PacketView::Unknown,
        }
    }
}

impl FlexispotPacket {
    /// Decodes one span, the markers around it already taken away.
    pub fn from_bytes_without_sep(bytes: &[u8]) -> (packet: Self)
        ensures
            packet@ == decode_span(bytes@),
    {
        if bytes.len() != PACKET_LEN {
            return Self::Unknown;
        }
        let digit_bytes: [u8; 3] = [bytes[2], bytes[3], bytes[4]];
        match FlexispotCurrentHeight::from_digit_bytes(&digit_bytes) {
            Ok(height) => Self::CurrentHeight(height),
            Err(FlexispotQueryError::DeviceIsSleeped) => Self::Sleep,
            Err(_) => Self::Unknown,
        }
    }
}

/// Whether a byte is one of the two markers that delimit frames.
pub open spec fn is_marker(byte: u8) -> bool {
    byte == DATA_PREFIX || byte == DATA_SUFFIX
}

/// A run of bytes as a list of spans: none if the run is empty.
pub open spec fn close_span(run: Seq<u8>) -> Seq<Seq<u8>> {
    if run.len() == 0 {
        Seq::empty()
    } else {
        seq![run]
    }
}

/// The spans of `run + rest`, where `run` holds the bytes since the last
/// marker: every marker in `rest` closes the run before it.
pub open spec fn split_after(run: Seq<u8>, rest: Seq<u8>) -> Seq<Seq<u8>>
    decreases rest.len(),
{
    if rest.len() == 0 {
        close_span(run)
    } else if is_marker(rest[0]) {
        close_span(run) + split_after(Seq::empty(), rest.skip(1))
    } else {
        split_after(run.push(rest[0]), rest.skip(1))
    }
}

/// The spans of a buffer, in the order in which they were received: the
/// runs of bytes between markers, without the empty ones.
pub open spec fn split_spans(buffer: Seq<u8>) -> Seq<Seq<u8>> {
    split_after(Seq::empty(), buffer)
}

/// The spans of a received buffer.
#[derive(Debug)]
pub struct FlexispotQueryResult(Vec<Vec<u8>>);

/// Each span as the sequence of its bytes.
spec fn span_views(spans: Seq<Vec<u8>>) -> Seq<Seq<u8>> {
    Seq::new(spans.len(), |i: int| spans[i]@)
}

impl View for FlexispotQueryResult {
    type V = Seq<Seq<u8>>;

    /// The spans, each as the sequence of its bytes.
    closed spec fn view(&self) -> Seq<Seq<u8>> {
        span_views(self.0@)
    }
}

impl FlexispotQueryResult {
    /// Cuts a received buffer at every start and end marker and keeps the
    /// pieces that are not empty.
    pub fn new(bytes_with_prefix_and_suffix: &[u8]) -> (result: Self)
        ensures
            result@ == split_spans(bytes_with_prefix_and_suffix@),
    {
        let buffer = bytes_with_prefix_and_suffix;
        let mut spans: Vec<Vec<u8>> = Vec::new();
        let mut run: Vec<u8> = Vec::new();
        let mut at: usize = 0;
        assert(buffer@.skip(0) =~= buffer@);
        while at < buffer.len()
            invariant
                at <= buffer@.len(),
                split_spans(buffer@) == span_views(spans@) + split_after(
                    run@,
                    buffer@.skip(at as int),
                ),
            decreases buffer@.len() - at,
        {
            let byte = buffer[at];
            assert(buffer@.skip(at as int).skip(1) =~= buffer@.skip(at + 1));
            if byte == DATA_PREFIX || byte == DATA_SUFFIX {
                if run.len() > 0 {
                    spans.push(run);
                    run = Vec::new();
                }
                assert(run@ =~= Seq::<u8>::empty());
            } else {
                run.push(byte);
            }
            at += 1;
        }
        if run.len() > 0 {
            spans.push(run);
        }
        FlexispotQueryResult(spans)
    }

    /// The spans, in the order in which they were received.
    pub fn spans(&self) -> (spans: &Vec<Vec<u8>>)
        ensures
            spans@.len() == self@.len(),
            forall|i: int| 0 <= i < spans@.len() ==> (#[trigger] spans@[i])@ == self@[i],
    {
        &self.0
    }

    /// Decodes every span, in order.
    pub fn parse(&self) -> (packets: Vec<FlexispotPacket>)
        ensures
            packets@.len() == self@.len(),
            forall|i: int| 0 <= i < packets@.len() ==> (#[trigger] packets@[i])@ == decode_span(self@[i]),
    {
        let mut packets: Vec<FlexispotPacket> = Vec::new();
        let mut at: usize = 0;
        while at < self.0.len()
            invariant
                at <= self.0@.len(),
                packets@.len() == at,
                forall|i: int| 0 <= i < at ==> (#[trigger] packets@[i])@ == decode_span(self.0@[i]@),
            decreases self.0@.len() - at,
        {
            let packet = FlexispotPacket::from_bytes_without_sep(self.0[at].as_slice());
            packets.push(packet);
            at += 1;
        }
        packets
    }
}

/// Whether no byte of `run` is a marker.
pub open spec fn marker_free(run: Seq<u8>) -> bool {
    forall|i: int| 0 <= i < run.len() ==> !is_marker(#[trigger] run[i])
}

/// A span of seven bytes whose digit bytes all show digits is a height: the
/// three digits read as one number, which counts tenths if the middle byte
/// lights its decimal point and units if it does not. This holds of every
/// such span of every buffer.
pub proof fn lemma_valid_digits_give_height(buffer: Seq<u8>, at: int, d0: u32, d1: u32, d2: u32)
    requires
        0 <= at < split_spans(buffer).len(),
        split_spans(buffer)[at].len() == PACKET_LEN,
        digit_of(split_spans(buffer)[at][2]) == Some(d0),
        digit_of(split_spans(buffer)[at][3]) == Some(d1),
        digit_of(split_spans(buffer)[at][4]) == Some(d2),
    ensures
        decode_span(split_spans(buffer)[at]) == PacketView::CurrentHeight(
            display_tenths(
                (100 * d0 + 10 * d1 + d2) as nat,
                has_decimal_point(split_spans(buffer)[at][3]),
            ),
        ),
{
    assert(0u8 & MASK_DIGIT == 0) by (bit_vector);
}

/// Three zero digit bytes mean sleep, whatever the other four bytes hold.
pub proof fn lemma_zero_digits_are_sleep(span: Seq<u8>)
    requires
        span.len() == PACKET_LEN,
        span[2] == 0,
        span[3] == 0,
        span[4] == 0,
    ensures
        decode_span(span) == PacketView::Sleep,
{
}

/// A span that is not seven bytes long is unknown.
pub proof fn lemma_wrong_length_is_unknown(span: Seq<u8>)
    requires
        span.len() != PACKET_LEN,
    ensures
        decode_span(span) == PacketView::Unknown,
{
}

/// A span with a byte that shows no digit is unknown, where that byte is
/// looked at: in a span of seven bytes it is one of the three digit bytes,
/// and these are not all zero.
pub proof fn lemma_undecodable_byte_is_unknown(span: Seq<u8>, at: int)
    requires
        0 <= at < span.len(),
        digit_of(span[at]) is None,
        span.len() == PACKET_LEN ==> 2 <= at <= 4 && !(span[2] == 0 && span[3] == 0 && span[4]
            == 0),
    ensures
        decode_span(span) == PacketView::Unknown,
{
}

/// The heights that packets carry are heights that the display can show.
pub proof fn lemma_decoded_height_can_display(span: Seq<u8>)
    ensures
        decode_span(span) matches PacketView::CurrentHeight(tenths) ==> can_display(tenths),
{
}

proof fn lemma_split_after_spans(run: Seq<u8>, rest: Seq<u8>)
    requires
        marker_free(run),
    ensures
        forall|i: int|
            0 <= i < split_after(run, rest).len() ==> (#[trigger] split_after(run, rest)[i]).len()
                > 0 && marker_free(split_after(run, rest)[i]),
    decreases rest.len(),
{
    let spans = split_after(run, rest);
    if rest.len() == 0 {
        assert forall|i: int| 0 <= i < spans.len() implies (#[trigger] spans[i]).len() > 0
            && marker_free(spans[i]) by {
            assert(spans[i] == run);
        }
    } else if is_marker(rest[0]) {
        let closed = close_span(run);
        let tail = split_after(Seq::empty(), rest.skip(1));
        lemma_split_after_spans(Seq::empty(), rest.skip(1));
        assert forall|i: int| 0 <= i < spans.len() implies (#[trigger] spans[i]).len() > 0
            && marker_free(spans[i]) by {
            if i < closed.len() {
                assert(spans[i] == run);
            } else {
                assert(spans[i] == tail[i - closed.len()]);
            }
        }
    } else {
        lemma_split_after_spans(run.push(rest[0]), rest.skip(1));
        assert(spans == split_after(run.push(rest[0]), rest.skip(1)));
    }
}

/// No span is empty, and no span holds a marker.
pub proof fn lemma_spans_hold_no_marker(buffer: Seq<u8>)
    ensures
        forall|i: int|
            0 <= i < split_spans(buffer).len() ==> (#[trigger] split_spans(buffer)[i]).len() > 0
                && marker_free(split_spans(buffer)[i]),
{
    lemma_split_after_spans(Seq::empty(), buffer);
}

/// The test that keeps the bytes that are not markers.
pub open spec fn not_marker() -> spec_fn(u8) -> bool {
    |byte: u8| !is_marker(byte)
}

proof fn lemma_split_after_keeps_bytes(run: Seq<u8>, rest: Seq<u8>)
    ensures
        split_after(run, rest).flatten() == run + rest.filter(not_marker()),
    decreases rest.len(),
{
    let spans = split_after(run, rest);
    if rest.len() == 0 {
        spans.lemma_flatten_one_element();
        assert(rest.filter(not_marker()) =~= Seq::<u8>::empty());
        assert(spans.flatten() =~= run + rest.filter(not_marker()));
    } else {
        let tail = rest.skip(1);
        assert(rest =~= seq![rest[0]] + tail);
        tail.lemma_filter_prepend(rest[0], not_marker());
        if is_marker(rest[0]) {
            let later = split_after(Seq::empty(), tail);
            lemma_split_after_keeps_bytes(Seq::empty(), tail);
            if run.len() > 0 {
                assert(spans.first() == run);
                assert(spans.drop_first() =~= later);
            } else {
                assert(spans =~= later);
            }
            assert(spans.flatten() =~= run + rest.filter(not_marker()));
        } else {
            lemma_split_after_keeps_bytes(run.push(rest[0]), tail);
            assert(run.push(rest[0]) + tail.filter(not_marker()) =~= run + rest.filter(
                not_marker(),
            ));
        }
    }
}

/// Splitting loses no byte and adds none: the spans, one after the other,
/// are the bytes of the buffer that are not markers, in their order.
pub proof fn lemma_spans_hold_the_other_bytes(buffer: Seq<u8>)
    ensures
        split_spans(buffer).flatten() == buffer.filter(not_marker()),
{
    lemma_split_after_keeps_bytes(Seq::empty(), buffer);
}

proof fn lemma_split_after_run(run: Seq<u8>, rest: Seq<u8>)
    requires
        marker_free(rest),
    ensures
        split_after(run, rest) == close_span(run + rest),
    decreases rest.len(),
{
    if rest.len() > 0 {
        lemma_split_after_run(run.push(rest[0]), rest.skip(1));
        assert(run.push(rest[0]) + rest.skip(1) =~= run + rest);
    }
}

/// A buffer without markers is one span, or none if it is empty.
pub proof fn lemma_split_without_marker(buffer: Seq<u8>)
    requires
        marker_free(buffer),
    ensures
        split_spans(buffer) == close_span(buffer),
{
    lemma_split_after_run(Seq::empty(), buffer);
}

proof fn lemma_split_after_marker(run: Seq<u8>, before: Seq<u8>, marker: u8, after: Seq<u8>)
    requires
        is_marker(marker),
    ensures
        split_after(run, before + seq![marker] + after) == split_after(run, before) + split_spans(
            after,
        ),
    decreases before.len(),
{
    let whole = before + seq![marker] + after;
    if before.len() == 0 {
        assert(whole.skip(1) =~= after);
    } else {
        assert(whole.skip(1) =~= before.skip(1) + seq![marker] + after);
        if is_marker(before[0]) {
            lemma_split_after_marker(Seq::empty(), before.skip(1), marker, after);
        } else {
            lemma_split_after_marker(run.push(before[0]), before.skip(1), marker, after);
        }
    }
}

/// A marker cuts a buffer in two: the spans of the whole are the spans of
/// what stands before the marker, followed by the spans of what stands
/// after it.
pub proof fn lemma_split_at_marker(before: Seq<u8>, marker: u8, after: Seq<u8>)
    requires
        is_marker(marker),
    ensures
        split_spans(before + seq![marker] + after) == split_spans(before) + split_spans(after),
{
    lemma_split_after_marker(Seq::empty(), before, marker, after);
}

} // verus!
