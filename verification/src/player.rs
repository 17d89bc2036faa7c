use vstd::prelude::*;

verus! {

/// Bytes that open and close every frame of the player's serial protocol.
pub const FRAME_START: u8 = 0x7E;
pub const FRAME_END: u8 = 0xEF;
pub const FRAME_VERSION: u8 = 0xFF;
pub const FRAME_LEN: u8 = 0x06;
pub const FRAME_NO_ACK: u8 = 0x00;
/// Number of bytes in a frame.
pub const FRAME_SIZE: usize = 10;

/// Commands of the player module.
pub const CMD_PLAY_ROOT_INDEX: u8 = 0x03;
pub const CMD_SET_VOLUME: u8 = 0x06;
pub const CMD_SELECT_DEVICE: u8 = 0x09;
pub const CMD_RESET: u8 = 0x0C;
pub const CMD_STOP: u8 = 0x16;
/// Sent by the player when a track has finished.
pub const CMD_TRACK_FINISHED: u8 = 0x3D;

/// High and low byte of a 16-bit value.
pub open spec fn hi_byte(v: int) -> u8 {
    (v / 256) as u8
}

pub open spec fn lo_byte(v: int) -> u8 {
    (v % 256) as u8
}

/// Sum of the bytes that the checksum covers: version, length, command,
/// acknowledge flag and the two parameter bytes.
pub open spec fn frame_sum(cmd: u8, param: u16) -> int {
    FRAME_VERSION + FRAME_LEN + cmd + FRAME_NO_ACK + hi_byte(param as int) + lo_byte(param as int)
}

/// The checksum: the two's complement of the sum, on 16 bits.
pub open spec fn checksum_spec(cmd: u8, param: u16) -> u16 {
    ((0x1_0000 - frame_sum(cmd, param)) % 0x1_0000) as u16
}

/// The frame that sends `cmd` with `param` (big-endian) to the player.
pub open spec fn frame_spec(cmd: u8, param: u16) -> Seq<u8> {
    seq![
        FRAME_START,
        FRAME_VERSION,
        FRAME_LEN,
        cmd,
        FRAME_NO_ACK,
        hi_byte(param as int),
        lo_byte(param as int),
        hi_byte(checksum_spec(cmd, param) as int),
        lo_byte(checksum_spec(cmd, param) as int),
        FRAME_END,
    ]
}

proof fn lemma_split_u16(v: u16)
    ensures
        (v >> 8u16) as u8 == hi_byte(v as int),
        (v & 0xFFu16) as u8 == lo_byte(v as int),
        (v >> 8u16) as int == v as int / 256,
        (v & 0xFFu16) as int == v as int % 256,
{
    assert((v >> 8u16) == v / 256) by (bit_vector);
    assert((v & 0xFFu16) == v % 256) by (bit_vector);
}

/// The checksum of a command frame.
pub fn frame_checksum(cmd: u8, param: u16) -> (c: u16)
    ensures
        c == checksum_spec(cmd, param),
{
    let version: u8 = FRAME_VERSION;
    let len: u8 = FRAME_LEN;
    let ack: u8 = FRAME_NO_ACK;
    proof { lemma_split_u16(param); }
    let param_h = (param >> 8) as u8;
    let param_l = (param & 0xFF) as u8;
    let sum = version as u16 + len as u16 + cmd as u16 + ack as u16 + param_h as u16 + param_l as u16;
    0u16.wrapping_sub(sum)
}

/// The ten bytes that send `cmd` with `param` to the player.
pub fn dfplayer_command_frame(cmd: u8, param: u16) -> (frame: [u8; 10])
    ensures
        frame@ == frame_spec(cmd, param),
{
    let checksum = frame_checksum(cmd, param);
    proof {
        lemma_split_u16(param);
        lemma_split_u16(checksum);
    }
    let param_h = (param >> 8) as u8;
    let param_l = (param & 0xFF) as u8;
    let c_h = (checksum >> 8) as u8;
    let c_l = (checksum & 0xFF) as u8;
    let frame = [FRAME_START, FRAME_VERSION, FRAME_LEN, cmd, FRAME_NO_ACK, param_h, param_l, c_h, c_l, FRAME_END];
    assert(frame@ =~= frame_spec(cmd, param));
    frame
}

/// The frame that plays track `index` in the order of the root folder.
pub fn play_root_index_frame(index: u16) -> (frame: [u8; 10])
    ensures
        frame@ == frame_spec(CMD_PLAY_ROOT_INDEX, index),
{
    dfplayer_command_frame(CMD_PLAY_ROOT_INDEX, index)
}

/// The frame that stops playback.
pub fn stop_frame() -> (frame: [u8; 10])
    ensures
        frame@ == frame_spec(CMD_STOP, 0),
{
    dfplayer_command_frame(CMD_STOP, 0)
}

/// The checksum makes the covered bytes and the checksum add up to zero on 16 bits.
pub proof fn lemma_checksum_cancels(cmd: u8, param: u16)
    ensures
        (frame_sum(cmd, param) + checksum_spec(cmd, param)) % 0x1_0000 == 0,
        frame_spec(cmd, param)[7] as int * 256 + frame_spec(cmd, param)[8] as int == checksum_spec(cmd, param) as int,
        frame_spec(cmd, param)[5] as int * 256 + frame_spec(cmd, param)[6] as int == param as int,
{
}

/// Command and parameter carried by a received frame `q` (ten bytes).
pub open spec fn frame_payload(q: Seq<u8>) -> (u8, u16) {
    (q[3], (q[5] as int * 256 + q[6] as int) as u16)
}

/// Whether a received frame `q` opens and closes with the framing bytes.
pub open spec fn is_framed(q: Seq<u8>) -> bool {
    q[0] == FRAME_START && q[9] == FRAME_END
}

/// One received byte applied to the bytes pending in the current frame
/// (`None` while waiting for a start byte): the new pending bytes, and the
/// command and parameter of a frame that this byte completed.
pub open spec fn push_spec(pending: Option<Seq<u8>>, b: u8) -> (Option<Seq<u8>>, Option<(u8, u16)>) {
    match pending {
        None => if b == FRAME_START { (Some(seq![b]), None) } else { (None, None) },
        Some(p) => {
            let q = p.push(b);
            if q.len() == FRAME_SIZE {
                (None, if is_framed(q) { Some(frame_payload(q)) } else { None })
            } else {
                (Some(q), None)
            }
        },
    }
}

/// Whether `pending` can be the state of a parser: a frame in progress
/// holds its start byte and fewer than ten bytes.
pub open spec fn pending_wf(pending: Option<Seq<u8>>) -> bool {
    match pending {
        None => true,
        Some(p) => 1 <= p.len() < FRAME_SIZE && p[0] == FRAME_START,
    }
}

/// Reassembles frames from the player's serial output, one byte at a time.
pub struct DfFrameParser {
    buf: [u8; 10],
    idx: usize,
    in_frame: bool,
}

impl View for DfFrameParser {
    type V = Option<Seq<u8>>;

    closed spec fn view(&self) -> Option<Seq<u8>> {
        if self.in_frame {
            Some(self.buf@.subrange(0, self.idx as int))
        } else {
            None
        }
    }
}

impl DfFrameParser {
    pub closed spec fn wf(&self) -> bool {
        &&& self.in_frame ==> 1 <= self.idx < FRAME_SIZE && self.buf[0] == FRAME_START
        &&& !self.in_frame ==> self.idx == 0
    }

    /// The ten bytes of the receive buffer, including those no frame uses yet.
    pub closed spec fn buffer(&self) -> Seq<u8> {
        self.buf@
    }

    /// The parser's state is always one that `pending_wf` admits.
    pub proof fn lemma_view_wf(&self)
        requires
            self.wf(),
        ensures
            pending_wf(self@),
    {
    }

    pub fn new() -> (p: Self)
        ensures
            p.wf(),
            p@ == None::<Seq<u8>>,
            p.buffer() == Seq::new(10, |i: int| 0u8),
    {
        let buf: [u8; 10] = [0, 0, 0, 0, 0, 0, 0, 0, 0, 0];
        assert(buf@ =~= Seq::new(10, |i: int| 0u8));
        Self { buf, idx: 0, in_frame: false }
    }

    /// Feeds one received byte; returns the command and parameter of the
    /// frame that this byte completes, if it completes one.
    pub fn push(&mut self, b: u8) -> (r: Option<(u8, u16)>)
        requires
            old(self).wf(),
        ensures
            final(self).wf(),
            (final(self)@, r) == push_spec(old(self)@, b),
            match old(self)@ {
                None => if b == FRAME_START {
                    final(self).buffer() == old(self).buffer().update(0, b)
                } else {
                    *final(self) == *old(self)
                },
                Some(p) => final(self).buffer() == old(self).buffer().update(p.len() as int, b),
            },
    {
        if !self.in_frame {
            if b == FRAME_START {
                self.in_frame = true;
                self.idx = 0;
                self.buf[self.idx] = b;
                self.idx += 1;
                assert(self@ == Some(seq![b]));
            }
            return None;
        }
        let ghost p = self.buf@.subrange(0, self.idx as int);
        if self.idx < self.buf.len() {
            self.buf[self.idx] = b;
            self.idx += 1;
        } else {
            self.in_frame = false;
            self.idx = 0;
            return None;
        }
        assert(self.buf@.subrange(0, self.idx as int) =~= p.push(b));
        if self.idx == FRAME_SIZE {
            self.in_frame = false;
            self.idx = 0;
            if self.buf[0] == FRAME_START && self.buf[9] == FRAME_END {
                let cmd = self.buf[3];
                let h = self.buf[5];
                let l = self.buf[6];
                assert(((h as u16) << 8u16) | (l as u16) == h as int * 256 + l as int) by (bit_vector);
                let param = ((h as u16) << 8) | l as u16;
                return Some((cmd, param));
            }
        }
        None
    }
}

/// Bytes fed to a parser one after the other from `pending`: the final
/// pending bytes and what each push returned.
pub open spec fn feed_spec(pending: Option<Seq<u8>>, bytes: Seq<u8>) -> (Option<Seq<u8>>, Seq<Option<(u8, u16)>>)
    decreases bytes.len(),
{
    if bytes.len() == 0 {
        (pending, Seq::empty())
    } else {
        let (p1, outs) = feed_spec(pending, bytes.drop_last());
        let (p2, o) = push_spec(p1, bytes.last());
        (p2, outs.push(o))
    }
}

proof fn lemma_feed_prefix(q: Seq<u8>, k: int)
    requires
        q.len() == FRAME_SIZE,
        q[0] == FRAME_START,
        1 <= k <= 9,
    ensures
        feed_spec(None, q.subrange(0, k)).0 == Some(q.subrange(0, k)),
        feed_spec(None, q.subrange(0, k)).1.len() == k,
        forall|i: int| 0 <= i < k ==> #[trigger] feed_spec(None, q.subrange(0, k)).1[i] == None::<(u8, u16)>,
    decreases k,
{
    assert(q.subrange(0, k).drop_last() =~= q.subrange(0, k - 1));
    if k == 1 {
        assert(q.subrange(0, 0).len() == 0);
        assert(q.subrange(0, 1) =~= seq![q[0]]);
    } else {
        lemma_feed_prefix(q, k - 1);
        assert(q.subrange(0, k - 1).push(q[k - 1]) =~= q.subrange(0, k));
    }
}

/// A parser waiting for a frame that receives ten bytes starting with the
/// start byte reports nothing for the first nine, ends waiting again, and at
/// the tenth reports the command and parameter when the last byte is the end byte.
pub proof fn lemma_parser_reads_ten_bytes(q: Seq<u8>)
    requires
        q.len() == FRAME_SIZE,
        q[0] == FRAME_START,
    ensures
        feed_spec(None, q).0 == None::<Seq<u8>>,
        feed_spec(None, q).1.len() == FRAME_SIZE,
        forall|i: int| 0 <= i < 9 ==> #[trigger] feed_spec(None, q).1[i] == None::<(u8, u16)>,
        feed_spec(None, q).1[9] == (if is_framed(q) { Some(frame_payload(q)) } else { None }),
{
    lemma_feed_prefix(q, 9);
    assert(q.drop_last() =~= q.subrange(0, 9));
    assert(q.subrange(0, 9).push(q[9]) =~= q);
}

/// What the parser does with a frame that the codec built: a waiting parser
/// fed the frame of `cmd` and `param` reports exactly that command and
/// parameter, at the last byte and only there, and waits for a frame again.
pub proof fn lemma_frame_roundtrip(cmd: u8, param: u16)
    ensures
        feed_spec(None, frame_spec(cmd, param)).0 == None::<Seq<u8>>,
        feed_spec(None, frame_spec(cmd, param)).1.len() == FRAME_SIZE,
        forall|i: int| 0 <= i < 9 ==> #[trigger] feed_spec(None, frame_spec(cmd, param)).1[i] == None::<(u8, u16)>,
        feed_spec(None, frame_spec(cmd, param)).1[9] == Some((cmd, param)),
{
    lemma_parser_reads_ten_bytes(frame_spec(cmd, param));
    lemma_checksum_cancels(cmd, param);
}

/// Every byte keeps the parser's state well formed.
pub proof fn lemma_push_keeps_wf(pending: Option<Seq<u8>>, b: u8)
    requires
        pending_wf(pending),
    ensures
        pending_wf(push_spec(pending, b).0),
{
    if let Some(p) = pending {
        assert(p.push(b)[0] == p[0]);
    }
}

/// Feeding bytes yields one report per byte.
pub proof fn lemma_feed_len(pending: Option<Seq<u8>>, bytes: Seq<u8>)
    ensures
        feed_spec(pending, bytes).1.len() == bytes.len(),
    decreases bytes.len(),
{
    if bytes.len() > 0 {
        lemma_feed_len(pending, bytes.drop_last());
    }
}

} // verus!
