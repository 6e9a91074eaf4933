//! USB HID framing of APDUs for Ledger devices.
//!
//! A command is cut into 64-byte packets, each starting with the channel, the
//! APDU tag and a sequence index; the first packet also carries the total
//! length. Responses come back in the same framing.
use vstd::prelude::*;
use crate::bytes::{be_u16, push_u16_be, u16_be};
use crate::ledger_flex::error::{LedgerError, LedgerErrorView};
use crate::text::{
    contains_text, decimal_text, hex_text, owned, push_decimal, push_hex, push_str, text_contains,
};

verus! {

/// Ledger vendor ID.
pub const LEDGER_VENDOR_ID: u16 = 0x2c97;

/// Product ID of the Nano S.
pub const LEDGER_NANO_S: u16 = 0x0001;

/// Product ID of the Nano X.
pub const LEDGER_NANO_X: u16 = 0x0004;

/// Product ID of the Nano S Plus.
pub const LEDGER_NANO_S_PLUS: u16 = 0x0005;

/// Product ID of the Flex.
pub const LEDGER_FLEX: u16 = 0x0008;

/// Product ID of the Stax.
pub const LEDGER_STAX: u16 = 0x000a;

/// HID usage page of Ledger devices.
pub const LEDGER_USAGE_PAGE: u16 = 0xffa0;

/// Communication channel.
pub const LEDGER_CHANNEL: u16 = 0x0101;

/// APDU packet tag.
pub const TAG_APDU: u8 = 0x05;

/// Size of one HID packet.
pub const PACKET_SIZE: usize = 64;

/// Timeout for device reads (60 seconds for user confirmation).
pub const DEVICE_TIMEOUT_MS: i32 = 60_000;

/// Payload bytes that the first packet carries (after channel, tag, index and length).
pub const FIRST_PACKET_DATA: usize = 57;

/// Payload bytes that every later packet carries (after channel, tag and index).
pub const NEXT_PACKET_DATA: usize = 59;

/// Whether a HID device is a supported Ledger: the Ledger vendor, one of the
/// supported products, and the Ledger usage page.
pub fn is_ledger_device(vendor_id: u16, product_id: u16, usage_page: u16) -> (r: bool)
    ensures
        r == (vendor_id == LEDGER_VENDOR_ID && (product_id == LEDGER_NANO_S || product_id
            == LEDGER_NANO_X || product_id == LEDGER_NANO_S_PLUS || product_id == LEDGER_FLEX
            || product_id == LEDGER_STAX) && usage_page == LEDGER_USAGE_PAGE),
{
    vendor_id == LEDGER_VENDOR_ID && (product_id == LEDGER_NANO_S || product_id == LEDGER_NANO_X
        || product_id == LEDGER_NANO_S_PLUS || product_id == LEDGER_FLEX || product_id
        == LEDGER_STAX) && usage_page == LEDGER_USAGE_PAGE
}

/// The smaller of two naturals.
pub open spec fn min_nat(a: nat, b: nat) -> nat {
    if a <= b {
        a
    } else {
        b
    }
}

/// Channel, tag and sequence index that begin every packet.
pub open spec fn packet_header(seq_idx: u16) -> Seq<u8> {
    u16_be(LEDGER_CHANNEL) + seq![TAG_APDU] + u16_be(seq_idx)
}

/// Zero bytes up to the packet size.
pub open spec fn pad_packet(s: Seq<u8>) -> Seq<u8> {
    s + Seq::new((PACKET_SIZE - s.len()) as nat, |i: int| 0u8)
}

/// The first packet of a command: header with index 0, the command's length in
/// two bytes (its low sixteen bits), and up to 57 bytes of the command.
pub open spec fn first_packet(cmd: Seq<u8>) -> Seq<u8> {
    pad_packet(
        packet_header(0) + u16_be((cmd.len() % 65536) as u16) + cmd.take(
            min_nat(cmd.len(), FIRST_PACKET_DATA as nat) as int,
        ),
    )
}

/// The packets carrying `rest`, 59 bytes each, numbered from `k`.
pub open spec fn continuation_packets(rest: Seq<u8>, k: nat) -> Seq<Seq<u8>>
    decreases rest.len(),
{
    if rest.len() == 0 {
        seq![]
    } else {
        let n = min_nat(rest.len(), NEXT_PACKET_DATA as nat) as int;
        seq![pad_packet(packet_header(k as u16) + rest.take(n))] + continuation_packets(
            rest.skip(n),
            k + 1,
        )
    }
}

/// Every packet that a command is written as (none for an empty command).
pub open spec fn apdu_packets(cmd: Seq<u8>) -> Seq<Seq<u8>> {
    if cmd.len() == 0 {
        seq![]
    } else {
        seq![first_packet(cmd)] + continuation_packets(
            cmd.skip(min_nat(cmd.len(), FIRST_PACKET_DATA as nat) as int),
            1,
        )
    }
}

/// The longest command whose packets' indices fit in sixteen bits.
pub open spec fn max_framed_len() -> nat {
    (FIRST_PACKET_DATA + NEXT_PACKET_DATA * 65534) as nat
}

/// The views of a sequence of byte vectors.
pub open spec fn byte_vec_views(v: Seq<Vec<u8>>) -> Seq<Seq<u8>> {
    Seq::new(v.len(), |i: int| v[i]@)
}

/// Builds one packet: header, optional length field, then `data[from..to]`, zero padded.
fn build_packet(seq_idx: u16, total_len: Option<u16>, data: &[u8], from: usize, to: usize) -> (r:
    Vec<u8>)
    requires
        from <= to <= data.len(),
        to - from <= (if total_len is Some {
            FIRST_PACKET_DATA
        } else {
            NEXT_PACKET_DATA
        }),
    ensures
        r@ == pad_packet(
            packet_header(seq_idx) + (match total_len {
                Some(t) => u16_be(t),
                None => Seq::<u8>::empty(),
            }) + data@.subrange(from as int, to as int),
        ),
        r@.len() == PACKET_SIZE,
{
    let mut packet: Vec<u8> = Vec::new();
    push_u16_be(&mut packet, LEDGER_CHANNEL);
    packet.push(TAG_APDU);
    push_u16_be(&mut packet, seq_idx);
    match total_len {
        Some(t) => push_u16_be(&mut packet, t),
        None => {},
    }
    let ghost head = packet@;
    let mut i: usize = from;
    while i < to
        invariant
            from <= i <= to <= data.len(),
            packet@ == head + data@.subrange(from as int, i as int),
        decreases to - i,
    {
        packet.push(data[i]);
        i = i + 1;
        assert(data@.subrange(from as int, i as int) == data@.subrange(from as int, i - 1).push(
            data@[i - 1],
        ));
    }
    let ghost body = packet@;
    while packet.len() < PACKET_SIZE
        invariant
            body.len() <= packet@.len() <= PACKET_SIZE,
            packet@ == body + Seq::new((packet@.len() - body.len()) as nat, |j: int| 0u8),
        decreases PACKET_SIZE - packet.len(),
    {
        let ghost before = packet@;
        packet.push(0u8);
        assert(packet@ =~= body + Seq::new((packet@.len() - body.len()) as nat, |j: int| 0u8));
    }
    assert(packet@ =~= pad_packet(body));
    packet
}

/// Cuts a command into the HID packets it is written as.
pub fn frame_apdu(command: &[u8]) -> (r: Vec<Vec<u8>>)
    requires
        command.len() <= max_framed_len(),
    ensures
        byte_vec_views(r@) == apdu_packets(command@),
        forall|i: int| 0 <= i < r@.len() ==> (#[trigger] r@[i])@.len() == PACKET_SIZE,
{
    let mut packets: Vec<Vec<u8>> = Vec::new();
    let len = command.len();
    if len == 0 {
        assert(byte_vec_views(packets@) =~= apdu_packets(command@));
        return packets;
    }
    let total: u16 = (len % 65536) as u16;
    let first_end: usize = if len < FIRST_PACKET_DATA {
        len
    } else {
        FIRST_PACKET_DATA
    };
    let first = build_packet(0, Some(total), command, 0, first_end);
    assert(command@.subrange(0, first_end as int) == command@.take(first_end as int));
    packets.push(first);
    let mut offset: usize = first_end;
    let mut seq_idx: u16 = 1;
    assert(byte_vec_views(packets@) =~= seq![first_packet(command@)]);
    while offset < len
        invariant
            len == command.len() <= max_framed_len(),
            first_end <= offset <= len,
            first_end == min_nat(len as nat, FIRST_PACKET_DATA as nat),
            seq_idx >= 1,
            seq_idx as int * NEXT_PACKET_DATA + FIRST_PACKET_DATA >= offset,
            offset < len ==> seq_idx as int * NEXT_PACKET_DATA + FIRST_PACKET_DATA == offset
                + NEXT_PACKET_DATA,
            byte_vec_views(packets@) + continuation_packets(
                command@.skip(offset as int),
                seq_idx as nat,
            ) == apdu_packets(command@),
            forall|i: int| 0 <= i < packets@.len() ==> (#[trigger] packets@[i])@.len()
                == PACKET_SIZE,
        decreases len - offset,
    {
        let remaining = len - offset;
        let n: usize = if remaining < NEXT_PACKET_DATA {
            remaining
        } else {
            NEXT_PACKET_DATA
        };
        let packet = build_packet(seq_idx, None, command, offset, offset + n);
        let ghost rest = command@.skip(offset as int);
        assert(command@.subrange(offset as int, offset + n) == rest.take(n as int));
        assert(rest.skip(n as int) == command@.skip(offset + n));
        let ghost before = byte_vec_views(packets@);
        packets.push(packet);
        assert(byte_vec_views(packets@) =~= before.push(packet@));
        assert(continuation_packets(rest, seq_idx as nat) == seq![packet@] + continuation_packets(
            command@.skip(offset + n),
            seq_idx as nat + 1,
        ));
        assert(before.push(packet@) + continuation_packets(
            command@.skip(offset + n),
            seq_idx as nat + 1,
        ) =~= before + (seq![packet@] + continuation_packets(
            command@.skip(offset + n),
            seq_idx as nat + 1,
        )));
        offset = offset + n;
        if offset < len {
            seq_idx = seq_idx + 1;
        } else {
            assert(command@.skip(offset as int) =~= Seq::<u8>::empty());
            assert(continuation_packets(command@.skip(offset as int), seq_idx as nat + 1) =~= seq![]);
            assert(continuation_packets(command@.skip(offset as int), seq_idx as nat) =~= seq![]);
            assert(byte_vec_views(packets@) + seq![] =~= byte_vec_views(packets@));
        }
    }
    assert(command@.skip(len as int) =~= Seq::<u8>::empty());
    assert(byte_vec_views(packets@) + continuation_packets(command@.skip(len as int), seq_idx as nat)
        =~= byte_vec_views(packets@));
    packets
}

/// The state of reading one response: the data gathered so far, the length
/// announced by the first packet, and the index of the next packet.
pub struct ReaderState {
    pub response: Seq<u8>,
    pub expected: Option<nat>,
    pub seq_idx: u16,
}

/// The state before the first packet of a response.
pub open spec fn initial_reader() -> ReaderState {
    ReaderState { response: Seq::empty(), expected: None, seq_idx: 0 }
}

/// States that reading can be in: before the first packet nothing is known;
/// after it the announced length is known and not yet exceeded.
pub open spec fn reader_wf(st: ReaderState) -> bool {
    if st.seq_idx == 0 {
        st.response.len() == 0 && st.expected is None
    } else {
        st.expected is Some && st.response.len() < st.expected->0 && st.expected->0 <= u16::MAX
    }
}

/// What one packet leads to.
pub enum ReadOutcome {
    /// More packets are needed.
    Continue,
    /// The response is complete.
    Complete(Seq<u8>),
    /// The packet is rejected.
    Failed(LedgerErrorView),
}

/// The error that a packet's header gives, if any: nothing read, wrong channel,
/// wrong tag, or an index other than the one expected.
pub open spec fn packet_header_error(st: ReaderState, packet: Seq<u8>, read_len: nat) -> Option<
    LedgerErrorView,
> {
    let channel = be_u16(packet[0], packet[1]);
    let seq = be_u16(packet[3], packet[4]);
    if read_len == 0 {
        Some(LedgerErrorView::Timeout)
    } else if channel != LEDGER_CHANNEL {
        Some(LedgerErrorView::InvalidResponse("Invalid channel: 0x"@ + hex_text(channel as nat, 4)))
    } else if packet[2] != TAG_APDU {
        Some(LedgerErrorView::InvalidResponse("Invalid tag: 0x"@ + hex_text(packet[2] as nat, 2)))
    } else if seq != st.seq_idx {
        Some(
            LedgerErrorView::InvalidResponse(
                "Invalid sequence: expected "@ + decimal_text(st.seq_idx as nat) + ", got "@
                    + decimal_text(seq as nat),
            ),
        )
    } else {
        None
    }
}

/// Where a packet's payload starts: after the length field in the first packet.
pub open spec fn payload_start(st: ReaderState) -> nat {
    if st.seq_idx == 0 {
        7
    } else {
        5
    }
}

/// The announced response length once this packet is read.
pub open spec fn announced_len(st: ReaderState, packet: Seq<u8>) -> nat {
    if st.seq_idx == 0 {
        be_u16(packet[5], packet[6]) as nat
    } else {
        match st.expected {
            Some(e) => e,
            None => 0,
        }
    }
}

/// How many payload bytes of this packet belong to the response.
pub open spec fn payload_len(st: ReaderState, packet: Seq<u8>, read_len: nat) -> nat {
    min_nat(
        (read_len - payload_start(st)) as nat,
        (announced_len(st, packet) - st.response.len()) as nat,
    )
}

/// The response gathered once this packet is read.
pub open spec fn gathered(st: ReaderState, packet: Seq<u8>, read_len: nat) -> Seq<u8> {
    let start = payload_start(st) as int;
    st.response + packet.subrange(start, start + payload_len(st, packet, read_len))
}

/// The packets on which reading would fail at run time rather than give an
/// outcome: fewer bytes read than the header holds, or a further packet
/// needed when the sixteen-bit index is exhausted.
pub open spec fn reader_step_panics(st: ReaderState, packet: Seq<u8>, read_len: nat) -> bool {
    packet_header_error(st, packet, read_len) is None && (read_len < payload_start(st) || (
    gathered(st, packet, read_len).len() < announced_len(st, packet) && st.seq_idx == u16::MAX))
}

/// Reading one packet: the next state and the outcome.
pub open spec fn reader_step(st: ReaderState, packet: Seq<u8>, read_len: nat) -> (
    ReaderState,
    ReadOutcome,
) {
    match packet_header_error(st, packet, read_len) {
        Some(e) => (st, ReadOutcome::Failed(e)),
        None => {
            let resp = gathered(st, packet, read_len);
            let exp = announced_len(st, packet);
            if resp.len() >= exp {
                (st, ReadOutcome::Complete(resp))
            } else {
                (
                    ReaderState {
                        response: resp,
                        expected: Some(exp),
                        seq_idx: (st.seq_idx + 1) as u16,
                    },
                    ReadOutcome::Continue,
                )
            }
        },
    }
}

/// The error a failed device read gives, from the read error's text: a
/// timeout when the text contains `timeout`, else a communication error
/// carrying the text.
pub fn read_error(text: String) -> (r: LedgerError)
    ensures
        r@ == if contains_text(text@, "timeout"@) {
            LedgerErrorView::Timeout
        } else {
            LedgerErrorView::CommunicationError(text@)
        },
{
    if text_contains(text.as_str(), "timeout") {
        LedgerError::Timeout
    } else {
        LedgerError::CommunicationError(text)
    }
}

/// Reads a response in packets, one call per packet read from the device.
pub struct ApduReader {
    response: Vec<u8>,
    expected_len: Option<usize>,
    seq_idx: u16,
}

/// What reading one packet leads to.
pub enum ReadStep {
    /// More packets are needed; the reader to give them to.
    Continue(ApduReader),
    /// The complete response.
    Complete(Vec<u8>),
    /// The packet is rejected.
    Failed(LedgerError),
}

impl View for ApduReader {
    type V = ReaderState;

    closed spec fn view(&self) -> ReaderState {
        ReaderState {
            response: self.response@,
            expected: match self.expected_len {
                Some(e) => Some(e as nat),
                None => None,
            },
            seq_idx: self.seq_idx,
        }
    }
}

impl ApduReader {
    /// A reader waiting for the first packet of a response.
    pub fn new() -> (r: Self)
        ensures
            r@ == initial_reader(),
    {
        let r = ApduReader { response: Vec::new(), expected_len: None, seq_idx: 0 };
        assert(r@.response =~= Seq::<u8>::empty());
        r
    }

    /// Whether reading this packet gives an outcome rather than failing at run time.
    pub fn can_feed(&self, packet: &[u8], read_len: usize) -> (r: bool)
        requires
            reader_wf(self@),
            packet.len() == PACKET_SIZE,
            read_len <= PACKET_SIZE,
        ensures
            r == !reader_step_panics(self@, packet@, read_len as nat),
    {
        let channel: u16 = (packet[0] as u16) * 256 + packet[1] as u16;
        let seq: u16 = (packet[3] as u16) * 256 + packet[4] as u16;
        if read_len == 0 || channel != LEDGER_CHANNEL || packet[2] != TAG_APDU || seq
            != self.seq_idx {
            return true;
        }
        let start: usize = if self.seq_idx == 0 {
            7
        } else {
            5
        };
        if read_len < start {
            return false;
        }
        let expected: usize = if self.seq_idx == 0 {
            ((packet[5] as u16) * 256 + packet[6] as u16) as usize
        } else {
            match self.expected_len {
                Some(e) => e,
                None => 0,
            }
        };
        let available = read_len - start;
        let remaining = expected - self.response.len();
        let to_copy = if available < remaining {
            available
        } else {
            remaining
        };
        !(self.response.len() + to_copy < expected && self.seq_idx == u16::MAX)
    }

    /// Reads one packet of `read_len` bytes (the packet buffer is always full size).
    pub fn feed(self, packet: &[u8], read_len: usize) -> (r: ReadStep)
        requires
            reader_wf(self@),
            packet.len() == PACKET_SIZE,
            read_len <= PACKET_SIZE,
            !reader_step_panics(self@, packet@, read_len as nat),
        ensures
            ({
                let (next, outcome) = reader_step(self@, packet@, read_len as nat);
                match r {
                    ReadStep::Continue(rd) => outcome is Continue && rd@ == next && reader_wf(rd@),
                    ReadStep::Complete(v) => outcome == ReadOutcome::Complete(v@),
                    ReadStep::Failed(e) => outcome == ReadOutcome::Failed(e@),
                }
            }),
    {
        let mut this = self;
        if read_len == 0 {
            return ReadStep::Failed(LedgerError::Timeout);
        }
        let channel: u16 = (packet[0] as u16) * 256 + packet[1] as u16;
        if channel != LEDGER_CHANNEL {
            let mut msg = owned("Invalid channel: 0x");
            push_hex(&mut msg, channel as u64, 4);
            return ReadStep::Failed(LedgerError::InvalidResponse(msg));
        }
        let tag = packet[2];
        if tag != TAG_APDU {
            let mut msg = owned("Invalid tag: 0x");
            push_hex(&mut msg, tag as u64, 2);
            return ReadStep::Failed(LedgerError::InvalidResponse(msg));
        }
        let seq: u16 = (packet[3] as u16) * 256 + packet[4] as u16;
        if seq != this.seq_idx {
            let mut msg = owned("Invalid sequence: expected ");
            push_decimal(&mut msg, this.seq_idx as u64);
            push_str(&mut msg, ", got ");
            push_decimal(&mut msg, seq as u64);
            return ReadStep::Failed(LedgerError::InvalidResponse(msg));
        }
        let ghost st = this@;
        assert(packet_header_error(st, packet@, read_len as nat) is None);
        let mut pos: usize = 5;
        if this.seq_idx == 0 {
            let total_len: usize = ((packet[5] as u16) * 256 + packet[6] as u16) as usize;
            this.expected_len = Some(total_len);
            pos = 7;
        }
        let expected: usize = match this.expected_len {
            Some(e) => e,
            None => 0,
        };
        assert(this.expected_len == Some(expected));
        assert(expected == announced_len(st, packet@));
        let available = read_len - pos;
        let remaining = expected - this.response.len();
        let to_copy = if available < remaining {
            available
        } else {
            remaining
        };
        let mut i: usize = pos;
        let ghost start_resp = this.response@;
        while i < pos + to_copy
            invariant
                pos <= i <= pos + to_copy <= read_len <= packet.len(),
                this.response@ == start_resp + packet@.subrange(pos as int, i as int),
                this.seq_idx == st.seq_idx,
                this.expected_len == Some(expected),
            decreases pos + to_copy - i,
        {
            this.response.push(packet[i]);
            i = i + 1;
            assert(packet@.subrange(pos as int, i as int) == packet@.subrange(pos as int, i - 1).push(
                packet@[i - 1],
            ));
        }
        assert(this.response@ == gathered(st, packet@, read_len as nat));
        if this.response.len() >= expected {
            return ReadStep::Complete(this.response);
        }
        assert(gathered(st, packet@, read_len as nat).len() < announced_len(st, packet@));
        assert(this.seq_idx == st.seq_idx);
        assert(!reader_step_panics(st, packet@, read_len as nat));
        this.seq_idx = this.seq_idx + 1;
        ReadStep::Continue(this)
    }
}

/// The outcome of reading packets one after the other, each read in full,
/// from state `st`: `None` when one of them would fail at run time.
pub open spec fn run_reader(st: ReaderState, packets: Seq<Seq<u8>>) -> Option<ReadOutcome>
    decreases packets.len(),
{
    if packets.len() == 0 {
        Some(ReadOutcome::Continue)
    } else if reader_step_panics(st, packets[0], PACKET_SIZE as nat) {
        None
    } else {
        let (next, out) = reader_step(st, packets[0], PACKET_SIZE as nat);
        match out {
            ReadOutcome::Continue => run_reader(next, packets.skip(1)),
            _ => Some(out),
        }
    }
}

proof fn lemma_u16_be_roundtrip(x: u16)
    ensures
        be_u16(u16_be(x)[0], u16_be(x)[1]) == x,
{
}

proof fn lemma_padded_packet(h: Seq<u8>, d: Seq<u8>)
    requires
        h.len() + d.len() <= PACKET_SIZE,
    ensures
        pad_packet(h + d).len() == PACKET_SIZE,
        forall|i: int| 0 <= i < h.len() ==> pad_packet(h + d)[i] == h[i],
        pad_packet(h + d).subrange(h.len() as int, (h.len() + d.len()) as int) == d,
{
    let p = pad_packet(h + d);
    assert(p.subrange(h.len() as int, (h.len() + d.len()) as int) =~= d);
}

proof fn lemma_continuation_read(cmd: Seq<u8>, off: nat, k: nat)
    requires
        FIRST_PACKET_DATA <= off < cmd.len() <= u16::MAX,
        k >= 1,
        off + NEXT_PACKET_DATA == k * NEXT_PACKET_DATA + FIRST_PACKET_DATA,
    ensures
        run_reader(
            ReaderState { response: cmd.take(off as int), expected: Some(cmd.len()), seq_idx: k as u16 },
            continuation_packets(cmd.skip(off as int), k),
        ) == Some(ReadOutcome::Complete(cmd)),
        forall|i: int|
            0 <= i < continuation_packets(cmd.skip(off as int), k).len() ==> run_reader(
                ReaderState {
                    response: cmd.take(off as int),
                    expected: Some(cmd.len()),
                    seq_idx: k as u16,
                },
                #[trigger] continuation_packets(cmd.skip(off as int), k).take(i),
            ) == Some(ReadOutcome::Continue),
    decreases cmd.len() - off,
{
    let st = ReaderState { response: cmd.take(off as int), expected: Some(cmd.len()), seq_idx: k as u16 };
    let rest = cmd.skip(off as int);
    let n = min_nat(rest.len(), NEXT_PACKET_DATA as nat);
    let h = packet_header(k as u16);
    let p = pad_packet(h + rest.take(n as int));
    assert(k < u16::MAX);
    lemma_padded_packet(h, rest.take(n as int));
    lemma_u16_be_roundtrip(k as u16);
    lemma_u16_be_roundtrip(LEDGER_CHANNEL);
    let packets = continuation_packets(rest, k);
    assert(packets[0] == p);
    assert(p[0] == h[0] && p[1] == h[1] && p[2] == h[2] && p[3] == h[3] && p[4] == h[4]);
    assert(packet_header_error(st, p, PACKET_SIZE as nat) is None);
    assert(payload_len(st, p, PACKET_SIZE as nat) == n);
    assert(p.subrange(5, 5 + n as int) == rest.take(n as int));
    assert(gathered(st, p, PACKET_SIZE as nat) =~= cmd.take((off + n) as int));
    if off + n >= cmd.len() {
        assert(cmd.take((off + n) as int) =~= cmd);
        assert(rest.skip(n as int).len() == 0);
        assert(continuation_packets(rest.skip(n as int), k + 1).len() == 0);
        assert(packets.len() == 1);
        assert forall|i: int| 0 <= i < packets.len() implies run_reader(st, #[trigger] packets.take(i))
            == Some(ReadOutcome::Continue) by {
            assert(packets.take(i).len() == 0);
        }
    } else {
        assert(n == NEXT_PACKET_DATA);
        assert(packets.skip(1) == continuation_packets(cmd.skip((off + n) as int), k + 1)) by {
            assert(rest.skip(n as int) =~= cmd.skip((off + n) as int));
        }
        assert((k as u16 + 1) as u16 == (k + 1) as u16);
        lemma_continuation_read(cmd, off + n, k + 1);
        let next = ReaderState {
            response: cmd.take((off + n) as int),
            expected: Some(cmd.len()),
            seq_idx: (k + 1) as u16,
        };
        assert(reader_step(st, p, PACKET_SIZE as nat) == (next, ReadOutcome::Continue));
        assert forall|i: int| 0 <= i < packets.len() implies run_reader(st, #[trigger] packets.take(i))
            == Some(ReadOutcome::Continue) by {
            if i > 0 {
                let t = packets.take(i);
                assert(t[0] == p);
                assert(t.skip(1) =~= packets.skip(1).take(i - 1));
            }
        }
    }
}

/// A response framed into packets and read back packet by packet, each read in
/// full, gives back the response: reading completes with the response exactly
/// at the last packet, and every shorter run of the first packets only asks
/// for more. This holds for responses of 1 to 65535 bytes; the length field
/// has sixteen bits, and an empty response is sent as no packet.
pub proof fn law_frame_read_roundtrip(cmd: Seq<u8>)
    requires
        1 <= cmd.len() <= u16::MAX,
    ensures
        run_reader(initial_reader(), apdu_packets(cmd)) == Some(ReadOutcome::Complete(cmd)),
        forall|i: int|
            0 <= i < apdu_packets(cmd).len() ==> run_reader(
                initial_reader(),
                #[trigger] apdu_packets(cmd).take(i),
            ) == Some(ReadOutcome::Continue),
{
    let st = initial_reader();
    let m = min_nat(cmd.len(), FIRST_PACKET_DATA as nat);
    let len16 = (cmd.len() % 65536) as u16;
    assert(len16 == cmd.len());
    let h = packet_header(0) + u16_be(len16);
    let p = first_packet(cmd);
    lemma_padded_packet(h, cmd.take(m as int));
    lemma_u16_be_roundtrip(0);
    lemma_u16_be_roundtrip(len16);
    lemma_u16_be_roundtrip(LEDGER_CHANNEL);
    let packets = apdu_packets(cmd);
    assert(packets[0] == p);
    assert(p[0] == h[0] && p[1] == h[1] && p[2] == h[2] && p[3] == h[3] && p[4] == h[4] && p[5]
        == h[5] && p[6] == h[6]);
    assert(packet_header_error(st, p, PACKET_SIZE as nat) is None);
    assert(announced_len(st, p) == cmd.len());
    assert(payload_len(st, p, PACKET_SIZE as nat) == m);
    assert(gathered(st, p, PACKET_SIZE as nat) =~= cmd.take(m as int));
    if m >= cmd.len() {
        assert(cmd.take(m as int) =~= cmd);
        assert(cmd.skip(m as int).len() == 0);
        assert(packets.len() == 1);
        assert forall|i: int| 0 <= i < packets.len() implies run_reader(st, #[trigger] packets.take(i))
            == Some(ReadOutcome::Continue) by {
            assert(packets.take(i).len() == 0);
        }
    } else {
        assert(packets.skip(1) == continuation_packets(cmd.skip(FIRST_PACKET_DATA as int), 1));
        lemma_continuation_read(cmd, FIRST_PACKET_DATA as nat, 1);
        let next = ReaderState {
            response: cmd.take(m as int),
            expected: Some(cmd.len()),
            seq_idx: 1u16,
        };
        assert(reader_step(st, p, PACKET_SIZE as nat) == (next, ReadOutcome::Continue));
        assert forall|i: int| 0 <= i < packets.len() implies run_reader(st, #[trigger] packets.take(i))
            == Some(ReadOutcome::Continue) by {
            if i > 0 {
                let t = packets.take(i);
                assert(t[0] == p);
                assert(t.skip(1) =~= packets.skip(1).take(i - 1));
            }
        }
    }
}

} // verus!
