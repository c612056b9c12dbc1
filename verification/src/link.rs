//! MAVLink v1 frame synchronization and message summarization.
//!
//! A `FrameBuffer` turns a raw byte stream into messages without losing
//! synchronization on corruption: it scans for the one-byte magic marker,
//! takes the frame boundary solely from the length byte that follows the
//! magic, and on a checksum failure discards only the single magic byte
//! just consumed before rescanning, so a valid frame that starts right
//! after a corrupt one survives.  Unrecognized message types are skipped
//! past, never fatal.
//!
//! The actual frame decode (checksum validation and payload parsing) is
//! done by the `mavlink` crate behind one trusted wrapper; everything the
//! verified logic needs of an inbound message is summarized into the
//! plain-value `LinkEvent`.

use vstd::prelude::*;

verus! {

use mavlink::common::MavMessage;
use mavlink::error::MessageReadError;

/// Frame marker byte of MAVLink v1.
pub const V1_MAGIC: u8 = 0xFE;

/// Bytes a v1 frame holds beyond its payload: magic, length byte, three
/// header bytes, message id and the two checksum bytes.
pub const V1_OVERHEAD: usize = 8;

#[verifier::external_type_specification]
#[verifier::external_body]
pub struct ExMavMessage(MavMessage);

/// The plain-value summary of one inbound message, carrying exactly the
/// fields that the correlation logic reads.
#[derive(Debug, Clone, Copy, PartialEq, Eq)]
pub enum LinkEvent {
    Heartbeat,
    Ping,
    ParamValue { param_id: [char; 16] },
    CommandAck { command: u32, result: u32 },
    Other,
}

/// Verdict on one candidate frame: a decoded message, a checksum failure,
/// or a frame whose checksum held but whose message type or content this
/// dialect does not know.
pub enum FrameEval {
    Message(LinkEvent),
    BadChecksum,
    Unsupported,
}

/// Result of handing one candidate frame to the decoder, keeping the raw
/// decoded message for unverified consumers alongside its summary.
pub enum ParsedFrame {
    Message { event: LinkEvent, raw: MavMessage },
    BadChecksum,
    Unsupported,
}

/// The verdict a `ParsedFrame` stands for, with the raw message dropped.
pub open spec fn parsed_frame_eval(r: ParsedFrame) -> FrameEval {
    match r {
        ParsedFrame::Message { event, raw } => FrameEval::Message(event),
        ParsedFrame::BadChecksum => FrameEval::BadChecksum,
        ParsedFrame::Unsupported => FrameEval::Unsupported,
    }
}

/// What the MAVLink v1 reader makes of one candidate frame: the verdict is
/// a function of the frame bytes alone.
pub uninterp spec fn frame_eval(frame: Seq<u8>) -> FrameEval;

/// Relies on mavlink::read_v1_msg of the common dialect: on a slice that
/// holds exactly one complete candidate frame it returns the decoded
/// message when the checksum holds and the message type is known, runs out
/// of input when the checksum fails (the reader silently skips a bad-CRC
/// candidate, so within one candidate it can only hit the end), and
/// reports a parse error when the checksum holds but the message id is
/// unknown to the dialect or a field carries an invalid enum value.
#[verifier::external_body]
fn eval_frame(frame: &[u8]) -> (r: ParsedFrame)
    ensures
        parsed_frame_eval(r) == frame_eval(frame@),
{
    let mut rdr: &[u8] = frame;
    match mavlink::read_v1_msg::<MavMessage, _>(&mut rdr) {
        Ok((_, m)) => {
            let event = match &m {
                MavMessage::HEARTBEAT(_) => LinkEvent::Heartbeat,
                MavMessage::PING(_) => LinkEvent::Ping,
                MavMessage::PARAM_VALUE(d) => LinkEvent::ParamValue { param_id: d.param_id },
                MavMessage::COMMAND_ACK(d) => LinkEvent::CommandAck { command: d.command as u32, result: d.result as u32 },
                _ => LinkEvent::Other,
            };
            ParsedFrame::Message { event, raw: m }
        },
        Err(MessageReadError::Io(_)) => ParsedFrame::BadChecksum,
        Err(MessageReadError::Parse(_)) => ParsedFrame::Unsupported,
    }
}

/// Index of the first magic byte at or after position `i`.
pub open spec fn first_magic_from(b: Seq<u8>, i: int) -> Option<int>
    decreases b.len() - i when 0 <= i <= b.len()
{
    if i >= b.len() {
        None
    } else if b[i] == V1_MAGIC {
        Some(i)
    } else {
        first_magic_from(b, i + 1)
    }
}

/// Where the first magic byte sits, what it promises, and what lies before
/// it.
pub proof fn lemma_first_magic_from(b: Seq<u8>, i: int)
    requires
        0 <= i <= b.len(),
    ensures
        match first_magic_from(b, i) {
            Some(p) => i <= p < b.len() && b[p] == V1_MAGIC && (forall|j: int|
                i <= j < p ==> b[j] != V1_MAGIC),
            None => forall|j: int| i <= j < b.len() ==> b[j] != V1_MAGIC,
        },
    decreases b.len() - i,
{
    if i < b.len() && b[i] != V1_MAGIC {
        lemma_first_magic_from(b, i + 1);
    }
}

/// Result of scanning the buffer for one complete candidate frame.
pub enum ScanSpec {
    NeedMore,
    Candidate { pos: int, len: int },
}

/// The scan rule: find the first magic byte; the length byte right after
/// it must be present (with one byte beyond, so a length can be read and
/// acted on), and the frame runs for that payload length plus the fixed
/// overhead.  Anything short of that asks for more input.
pub open spec fn scan_spec(b: Seq<u8>) -> ScanSpec {
    match first_magic_from(b, 0) {
        None => ScanSpec::NeedMore,
        Some(p) => {
            if p + 2 >= b.len() {
                ScanSpec::NeedMore
            } else {
                let flen: int = b[p + 1] + (V1_OVERHEAD as int);
                if p + flen > b.len() {
                    ScanSpec::NeedMore
                } else {
                    ScanSpec::Candidate { pos: p, len: flen }
                }
            }
        },
    }
}

/// A candidate reported by the scan lies inside the buffer, starts with
/// the magic byte, and spans at least the fixed overhead.
pub proof fn lemma_scan_props(b: Seq<u8>)
    ensures
        scan_spec(b) matches ScanSpec::Candidate { pos, len } ==> 0 <= pos && (V1_OVERHEAD as int)
            <= len && pos + len <= b.len() && b[pos] == V1_MAGIC,
{
    lemma_first_magic_from(b, 0);
}

/// One step of the receive loop over the buffered bytes: scan for a
/// complete candidate; a decoded message consumes the whole frame, a
/// checksum failure consumes only the magic byte, an unsupported message
/// is skipped past, and scanning resumes until a message comes out or the
/// buffer runs short.
pub open spec fn link_step(b: Seq<u8>) -> (StepSpec, Seq<u8>)
    decreases b.len() via link_step_decreases
{
    match scan_spec(b) {
        ScanSpec::NeedMore => (StepSpec::NeedData, b),
        ScanSpec::Candidate { pos, len } => match frame_eval(b.subrange(pos, pos + len)) {
            FrameEval::Message(e) => (StepSpec::Message(e), b.skip(pos + len)),
            FrameEval::BadChecksum => link_step(b.skip(pos + 1)),
            FrameEval::Unsupported => link_step(b.skip(pos + len)),
        },
    }
}

#[via_fn]
proof fn link_step_decreases(b: Seq<u8>) {
    lemma_scan_props(b);
}

/// Spec-level outcome of one receive step.
pub enum StepSpec {
    NeedData,
    Message(LinkEvent),
}

/// A checksum failure costs exactly the one magic byte just consumed:
/// receiving continues as if the stream had started one byte past the
/// corrupt candidate's magic, so a valid frame that begins inside or
/// right after it is still found.
pub proof fn lemma_bad_checksum_discards_one_byte(b: Seq<u8>, pos: int, len: int)
    requires
        scan_spec(b) == (ScanSpec::Candidate { pos, len }),
        frame_eval(b.subrange(pos, pos + len)) is BadChecksum,
    ensures
        link_step(b) == link_step(b.skip(pos + 1)),
{
}

/// A frame that decodes is delivered, and exactly the bytes through its
/// end are consumed.
pub proof fn lemma_decoded_frame_is_delivered(b: Seq<u8>, pos: int, len: int, e: LinkEvent)
    requires
        scan_spec(b) == (ScanSpec::Candidate { pos, len }),
        frame_eval(b.subrange(pos, pos + len)) == FrameEval::Message(e),
    ensures
        link_step(b) == (StepSpec::Message(e), b.skip(pos + len)),
{
}

/// Outcome of polling the buffer: either more bytes are needed from the
/// stream, or one message with its plain-value summary.
pub enum PollOutcome {
    NeedData,
    Message { event: LinkEvent, raw: MavMessage },
}

/// The step a `PollOutcome` stands for, with the raw message dropped.
pub open spec fn poll_view(r: PollOutcome) -> StepSpec {
    match r {
        PollOutcome::NeedData => StepSpec::NeedData,
        PollOutcome::Message { event, raw } => StepSpec::Message(event),
    }
}

/// The growing receive buffer of one MAVLink connection.
pub struct FrameBuffer {
    buf: Vec<u8>,
}

impl View for FrameBuffer {
    type V = Seq<u8>;

    closed spec fn view(&self) -> Seq<u8> {
        self.buf@
    }
}

impl FrameBuffer {
    /// An empty receive buffer.
    pub fn new() -> (r: FrameBuffer)
        ensures
            r@ == Seq::<u8>::empty(),
    {
        FrameBuffer { buf: Vec::new() }
    }

    /// Bytes currently buffered.
    pub fn len(&self) -> (r: usize)
        ensures
            r == self@.len(),
    {
        self.buf.len()
    }

    /// Append one chunk read from the stream.
    pub fn feed(&mut self, chunk: &[u8])
        requires
            old(self)@.len() + chunk@.len() <= usize::MAX,
        ensures
            final(self)@ == old(self)@ + chunk@,
    {
        let mut i: usize = 0;
        while i < chunk.len()
            invariant
                i <= chunk@.len(),
                self@ == old(self)@ + chunk@.take(i as int),
                old(self)@.len() + chunk@.len() <= usize::MAX,
            decreases chunk@.len() - i,
        {
            self.buf.push(chunk[i]);
            i = i + 1;
            proof {
                assert(self@ == old(self)@ + chunk@.take(i as int));
            }
        }
        proof {
            assert(chunk@.take(chunk@.len() as int) == chunk@);
        }
    }

    /// Drop the first `k` buffered bytes.
    fn advance(&mut self, k: usize)
        requires
            k <= old(self)@.len(),
        ensures
            final(self)@ == old(self)@.skip(k as int),
    {
        let mut kept: Vec<u8> = Vec::new();
        let mut i: usize = k;
        while i < self.buf.len()
            invariant
                k <= i <= self.buf@.len(),
                self.buf@ == old(self)@,
                kept@ == old(self)@.subrange(k as int, i as int),
            decreases self.buf@.len() - i,
        {
            kept.push(self.buf[i]);
            i = i + 1;
        }
        proof {
            assert(kept@ == old(self)@.skip(k as int));
        }
        self.buf = kept;
    }

    /// Copy the byte range `[start, end)` out of the buffer.
    fn copy_range(&self, start: usize, end: usize) -> (r: Vec<u8>)
        requires
            start <= end <= self@.len(),
        ensures
            r@ == self@.subrange(start as int, end as int),
    {
        let mut out: Vec<u8> = Vec::new();
        let mut i: usize = start;
        while i < end
            invariant
                start <= i <= end <= self.buf@.len(),
                out@ == self.buf@.subrange(start as int, i as int),
            decreases end - i,
        {
            out.push(self.buf[i]);
            i = i + 1;
        }
        out
    }

    /// Scan for one complete candidate frame, reporting its position and
    /// length, or that more input is needed.
    fn find_complete(&self) -> (r: Option<(usize, usize)>)
        ensures
            match r {
                Some((p, l)) => scan_spec(self@) == (ScanSpec::Candidate {
                    pos: p as int,
                    len: l as int,
                }) && p + l <= self@.len() && V1_OVERHEAD <= l && p + l <= usize::MAX,
                None => scan_spec(self@) is NeedMore,
            },
    {
        let n: usize = self.buf.len();
        let mut i: usize = 0;
        loop
            invariant
                i <= n,
                n == self.buf@.len(),
                first_magic_from(self.buf@, 0) == first_magic_from(self.buf@, i as int),
            ensures
                i < n && self.buf@[i as int] == V1_MAGIC && first_magic_from(self.buf@, 0) == Some(
                    i as int,
                ) || i == n && first_magic_from(self.buf@, 0) is None,
            decreases n - i,
        {
            if i >= n {
                break ;
            }
            if self.buf[i] == V1_MAGIC {
                break ;
            }
            i = i + 1;
        }
        if i >= n {
            return None;
        }
        // The length byte and one byte beyond it must be present.
        if n - i <= 2 {
            return None;
        }
        let flen: usize = (self.buf[i + 1] as usize) + V1_OVERHEAD;
        if flen > n - i {
            return None;
        }
        Some((i, flen))
    }

    /// Drive the receive step over the buffered bytes: deliver the next
    /// message, resynchronizing past corrupt and unsupported frames as
    /// `link_step` prescribes, or report that more input is needed.
    pub fn next_message(&mut self) -> (r: PollOutcome)
        ensures
            poll_view(r) == link_step(old(self)@).0,
            final(self)@ == link_step(old(self)@).1,
    {
        loop
            invariant
                link_step(self@) == link_step(old(self)@),
            decreases self@.len(),
        {
            match self.find_complete() {
                None => {
                    return PollOutcome::NeedData;
                },
                Some((p, flen)) => {
                    let frame = self.copy_range(p, p + flen);
                    let parsed = eval_frame(frame.as_slice());
                    match parsed {
                        ParsedFrame::Message { event, raw } => {
                            self.advance(p + flen);
                            return PollOutcome::Message { event, raw };
                        },
                        ParsedFrame::BadChecksum => {
                            self.advance(p + 1);
                        },
                        ParsedFrame::Unsupported => {
                            self.advance(p + flen);
                        },
                    }
                },
            }
        }
    }
}

/// The fixed parameter-id encoding: sixteen characters, the name's
/// characters first, zero-padded to the full width.
pub open spec fn spec_param_id(name: Seq<char>) -> Seq<char> {
    Seq::new(16, |i: int| if i < name.len() { name[i] } else { '\0' })
}

/// Encode a parameter name into the fixed sixteen-slot zero-padded form
/// that the parameter sub-protocol carries.
pub fn encode_param_id(name: &str) -> (r: [char; 16])
    requires
        name@.len() <= 16,
    ensures
        r@ == spec_param_id(name@),
{
    let n: usize = name.unicode_len();
    let mut id: [char; 16] = ['\0';16];
    let mut i: usize = 0;
    while i < n
        invariant
            i <= n == name@.len() <= 16,
            id@.len() == 16,
            forall|j: int| 0 <= j < i ==> id@[j] == name@[j],
            forall|j: int| i <= j < 16 ==> id@[j] == '\0',
        decreases n - i,
    {
        id[i] = name.get_char(i);
        i = i + 1;
    }
    proof {
        assert(id@ =~= spec_param_id(name@));
    }
    id
}

/// Whether two parameter identifiers are the same.
pub fn param_ids_equal(a: &[char; 16], b: &[char; 16]) -> (r: bool)
    ensures
        r == (a@ == b@),
{
    let mut i: usize = 0;
    while i < 16
        invariant
            i <= 16,
            forall|j: int| 0 <= j < i ==> a@[j] == b@[j],
        decreases 16 - i,
    {
        if a[i] != b[i] {
            proof {
                assert(a@[i as int] != b@[i as int]);
            }
            return false;
        }
        i = i + 1;
    }
    proof {
        assert(a@ =~= b@);
    }
    true
}

/// Whether an inbound message acknowledges the setting of the parameter
/// with this identifier: the sole mechanism that correlates a parameter
/// write with its asynchronous acknowledgement.
pub fn acks_param_set(event: &LinkEvent, id: &[char; 16]) -> (r: bool)
    ensures
        r == (event matches LinkEvent::ParamValue { param_id } && param_id@ == id@),
{
    match event {
        LinkEvent::ParamValue { param_id } => param_ids_equal(param_id, id),
        _ => false,
    }
}

/// Whether an inbound message acknowledges the command with this id.
pub fn acks_command(event: &LinkEvent, command: u32) -> (r: bool)
    ensures
        r == (event matches LinkEvent::CommandAck { command: c, result } && c == command),
{
    match event {
        LinkEvent::CommandAck { command: c, result } => *c == command,
        _ => false,
    }
}

/// Whether an inbound message is a heartbeat, the signal awaited before
/// any parameter is pushed.
pub fn is_heartbeat(event: &LinkEvent) -> (r: bool)
    ensures
        r == (event is Heartbeat),
{
    match event {
        LinkEvent::Heartbeat => true,
        _ => false,
    }
}

/// Whether an inbound message answers a ping.
pub fn is_ping(event: &LinkEvent) -> (r: bool)
    ensures
        r == (event is Ping),
{
    match event {
        LinkEvent::Ping => true,
        _ => false,
    }
}

/// Relies on mavlink::write_v1_msg: it writes the magic marker, the
/// payload length byte, the three header bytes as given, the message id,
/// the serialized payload and the checksum, in that order.
#[verifier::external_body]
fn encode_v1_frame(sequence: u8, system_id: u8, component_id: u8, msg: &MavMessage) -> (r: Vec<u8>)
    ensures
        r@.len() >= 8,
        r@[0] == V1_MAGIC,
        r@[2] == sequence,
        r@[3] == system_id,
        r@[4] == component_id,
{
    let mut out: Vec<u8> = Vec::new();
    let header = mavlink::MavHeader { system_id, component_id, sequence };
    let _ = mavlink::write_v1_msg(&mut out, header, msg);
    out
}

/// Frame one outbound message under this controller's header ids and
/// the given sequence number.
pub fn outbound_frame(sequence: u8, msg: &MavMessage) -> (r: Vec<u8>)
    ensures
        r@.len() >= 8,
        r@[0] == V1_MAGIC,
        r@[2] == sequence,
        r@[3] == LINK_SYSTEM_ID,
        r@[4] == LINK_COMPONENT_ID,
{
    encode_v1_frame(sequence, LINK_SYSTEM_ID, LINK_COMPONENT_ID, msg)
}

/// System id this controller writes into outbound frame headers.
pub const LINK_SYSTEM_ID: u8 = 1;

/// Component id this controller writes into outbound frame headers.
pub const LINK_COMPONENT_ID: u8 = 1;

/// How long a parameter-set or command waits for its acknowledgement.
pub const ACK_TIMEOUT_MILLIS: u64 = 10000;

/// How long the link waits for the first heartbeat: the autopilot may
/// still be booting.
pub const HEARTBEAT_TIMEOUT_MILLIS: u64 = 100000;

/// The sequence number of the next outbound frame, wrapping at the
/// field's width.
pub fn next_sequence(current: u8) -> (r: u8)
    ensures
        current < 255 ==> r == current + 1,
        current == 255 ==> r == 0,
{
    if current == 255 {
        0
    } else {
        current + 1
    }
}

/// Result code of an accepted command acknowledgement.
pub const MAV_RESULT_ACCEPTED: u32 = 0;

/// Result code of a command acknowledgement still in progress.
pub const MAV_RESULT_IN_PROGRESS: u32 = 5;

/// A command acknowledgement succeeds only when its result code says
/// accepted or in progress; every other code is a remote rejection that is
/// surfaced to the caller whose command triggered it.
pub fn command_ack_succeeded(result: u32) -> (r: bool)
    ensures
        r == (result == MAV_RESULT_ACCEPTED || result == MAV_RESULT_IN_PROGRESS),
{
    result == MAV_RESULT_ACCEPTED || result == MAV_RESULT_IN_PROGRESS
}

} // verus!
