//! Splitting coded frames into the fragments that go over the wire.
//!
//! A fragment is a common header, a video header and a chunk of the frame. The receiver puts the
//! chunks of a frame together in order.
use bytes::Bytes;
use vstd::prelude::*;

use crate::buffer::from_vec;
use crate::channel::ChannelId;
use crate::media::{Codec, FrameId, FrameType, TimestampUs};
use crate::raw::push_all;

verus! {

/// Bytes that the payload length of a common header can tell.
pub const MAX_PAYLOAD_LEN: usize = 65535;

/// The largest frame identity that a video header can carry.
pub const MAX_FRAME_ID: u32 = 0xFF_FFFF;

/// Whether a message is part of a larger one.
#[derive(Debug, Clone, Copy, PartialEq, Eq, Structural)]
pub struct Flags {
    /// Part of a larger message.
    pub fragment: bool,
    /// The last part of it.
    pub last_fragment: bool,
}

/// The header of every message.
#[derive(Debug, Clone, Copy, PartialEq, Eq, Structural)]
pub struct CommonHeader {
    /// Channel of the message.
    pub channel: ChannelId,
    /// Whether it is part of a larger one.
    pub flags: Flags,
    /// Position in the channel, modulo the width of the field.
    pub sequence: u16,
    /// When it was made.
    pub timestamp_us: TimestampUs,
    /// Bytes behind the headers.
    pub payload_len: u16,
}

/// How urgent a message is.
#[derive(Debug, Clone, Copy, PartialEq, Eq, Structural)]
pub enum Priority {
    /// Sent when nothing else waits.
    Low,
    /// Sent in turn.
    Normal,
    /// Sent before others.
    High,
}

/// The header of a video fragment.
#[derive(Debug, Clone, Copy, PartialEq, Eq, Structural)]
pub struct VideoHeader {
    /// Identity of the frame.
    pub frame_id: FrameId,
    /// Position of the fragment in the frame.
    pub frag_index: u8,
    /// Fragments of the frame.
    pub total_frags: u8,
    /// Codec of the frame.
    pub codec: Codec,
    /// How the frame was coded.
    pub frame_type: FrameType,
    /// How urgent it is.
    pub priority: Priority,
    /// Screen that it shows.
    pub monitor_id: u8,
    /// Last fragment of the frame.
    pub marker: bool,
    /// When it was encoded.
    pub encode_ts_us: TimestampUs,
}

/// One fragment of a coded frame.
#[derive(Debug, PartialEq, Eq)]
pub struct VideoFragment {
    /// Common header.
    pub common: CommonHeader,
    /// Video header.
    pub video: VideoHeader,
    /// Part of the frame.
    pub chunk: Bytes,
}

impl VideoFragment {
    /// The part of the frame.
    pub open spec fn bytes(self) -> Seq<u8> {
        crate::buffer::content(self.chunk)
    }
}

/// A frame cannot be put on the wire.
#[derive(Debug, Clone, Copy, PartialEq, Eq, Structural)]
pub enum ShpError {
    /// A fragment is longer than a header can tell.
    PayloadTooLong,
    /// The frame takes more fragments than a header can count.
    TooManyFragments,
}

impl ShpError {
    /// What the error says.
    pub open spec fn text(self) -> Seq<char> {
        match self {
            ShpError::PayloadTooLong => "SHP fragment exceeds 16-bit payload-length cap"@,
            ShpError::TooManyFragments => "encoded frame needs more than 255 SHP fragments"@,
        }
    }

    /// What the error says.
    pub fn to_text(&self) -> (r: String)
        ensures
            r@ == self.text(),
    {
        match self {
            ShpError::PayloadTooLong => "SHP fragment exceeds 16-bit payload-length cap".to_owned(),
            ShpError::TooManyFragments => {
                "encoded frame needs more than 255 SHP fragments".to_owned()
            },
        }
    }
}

/// The headers of fragment `index` of `total`.
pub open spec fn fragment_headers(
    sequence: u16,
    frame_id: u32,
    ts_us: u64,
    frame_type: FrameType,
    len: nat,
    index: u8,
    total: u8,
) -> (CommonHeader, VideoHeader) {
    let last = index + 1 == total;
    (
        CommonHeader {
            channel: ChannelId::Video,
            flags: Flags { fragment: total > 1, last_fragment: total > 1 && last },
            sequence,
            timestamp_us: TimestampUs(ts_us),
            payload_len: len as u16,
        },
        VideoHeader {
            frame_id: FrameId(frame_id as u64),
            frag_index: index,
            total_frags: total,
            codec: Codec::H264,
            frame_type,
            priority: Priority::High,
            monitor_id: 0,
            marker: last,
            encode_ts_us: TimestampUs(ts_us),
        },
    )
}

/// `f` is fragment `index` of `total`, with the given chunk.
pub open spec fn is_fragment(
    f: VideoFragment,
    sequence: u16,
    frame_id: u32,
    ts_us: u64,
    frame_type: FrameType,
    chunk: Seq<u8>,
    index: u8,
    total: u8,
) -> bool {
    &&& f.bytes() == chunk
    &&& (f.common, f.video) == fragment_headers(
        sequence,
        frame_id,
        ts_us,
        frame_type,
        chunk.len(),
        index,
        total,
    )
}

/// Put together one fragment.
fn build_one_fragment(
    sequence: u16,
    frame_id: u32,
    ts_us: u64,
    frame_type: FrameType,
    chunk: &[u8],
    frag_index: u8,
    total_frags: u8,
) -> (r: Result<VideoFragment, ShpError>)
    ensures
        chunk@.len() > MAX_PAYLOAD_LEN ==> r == Err::<VideoFragment, _>(ShpError::PayloadTooLong),
        chunk@.len() <= MAX_PAYLOAD_LEN ==> r is Ok,
        r matches Ok(f) ==> is_fragment(
            f,
            sequence,
            frame_id,
            ts_us,
            frame_type,
            chunk@,
            frag_index,
            total_frags,
        ),
{
    if chunk.len() > MAX_PAYLOAD_LEN {
        return Err(ShpError::PayloadTooLong);
    }
    let is_multi = total_frags > 1;
    let is_last = total_frags > 0 && total_frags - 1 == frag_index;
    let common = CommonHeader {
        channel: ChannelId::Video,
        flags: Flags { fragment: is_multi, last_fragment: is_multi && is_last },
        sequence,
        timestamp_us: TimestampUs(ts_us),
        payload_len: chunk.len() as u16,
    };
    let video = VideoHeader {
        frame_id: FrameId(frame_id as u64),
        frag_index,
        total_frags,
        codec: Codec::H264,
        frame_type,
        priority: Priority::High,
        monitor_id: 0,
        marker: is_last,
        encode_ts_us: TimestampUs(ts_us),
    };
    let mut buf: Vec<u8> = Vec::new();
    push_all(&mut buf, chunk);
    assert(buf@ =~= chunk@);
    Ok(VideoFragment { common, video, chunk: from_vec(buf) })
}

/// A frame in one fragment.
pub fn build_shp_video_frame(
    sequence: u16,
    frame_id: u32,
    ts_us: u64,
    frame_type: FrameType,
    payload: &[u8],
) -> (r: Result<VideoFragment, ShpError>)
    ensures
        payload@.len() > MAX_PAYLOAD_LEN ==> r == Err::<VideoFragment, _>(
            ShpError::PayloadTooLong,
        ),
        payload@.len() <= MAX_PAYLOAD_LEN ==> r is Ok,
        r matches Ok(f) ==> is_fragment(
            f,
            sequence,
            frame_id,
            ts_us,
            frame_type,
            payload@,
            0,
            1,
        ),
{
    build_one_fragment(sequence, frame_id, ts_us, frame_type, payload, 0, 1)
}

/// Bytes to a fragment: at least one, and no more than a header can tell.
pub open spec fn chunk_size(max_fragment_bytes: usize) -> nat {
    if max_fragment_bytes == 0 {
        1
    } else if max_fragment_bytes > MAX_PAYLOAD_LEN {
        MAX_PAYLOAD_LEN as nat
    } else {
        max_fragment_bytes as nat
    }
}

/// Fragments that a frame of `len` bytes takes: one even when it is empty.
pub open spec fn fragment_count(len: nat, size: nat) -> nat {
    if len == 0 {
        1
    } else {
        ((len + size - 1) / size as int) as nat
    }
}

/// The bytes of chunk `i`.
pub open spec fn chunk_of(payload: Seq<u8>, size: nat, i: int) -> Seq<u8> {
    payload.subrange(
        i * size,
        if (i + 1) * size < payload.len() {
            (i + 1) * size
        } else {
            payload.len() as int
        },
    )
}

/// The position after `n` more messages.
pub open spec fn advanced(sequence: u16, n: int) -> u16 {
    ((sequence + n) % 0x1_0000) as u16
}

/// `frags` are the fragments of a frame.
pub open spec fn fragments_of(
    frags: Seq<VideoFragment>,
    sequence: u16,
    frame_id: u32,
    ts_us: u64,
    frame_type: FrameType,
    payload: Seq<u8>,
    size: nat,
) -> bool {
    let total = fragment_count(payload.len(), size);
    &&& frags.len() == total
    &&& forall|i: int|
        0 <= i < total ==> is_fragment(
            #[trigger] frags[i],
            advanced(sequence, i),
            frame_id,
            ts_us,
            frame_type,
            chunk_of(payload, size, i),
            i as u8,
            total as u8,
        )
}

/// Every frame takes a fragment.
proof fn lemma_some_fragment(len: int, size: int)
    requires
        len >= 0,
        size > 0,
    ensures
        fragment_count(len as nat, size as nat) >= 1,
{
    if len > 0 {
        vstd::arithmetic::div_mod::lemma_div_non_zero(len + size - 1, size);
    }
}

/// Chunks start within the frame, hold at most `size` bytes, and only the last ends with it.
proof fn lemma_chunks(len: int, size: int, i: int)
    requires
        len > 0,
        size > 0,
        0 <= i < fragment_count(len as nat, size as nat),
    ensures
        0 <= i * size < len,
        (i + 1) * size == i * size + size,
        (i + 1) * size >= len <==> i + 1 == fragment_count(len as nat, size as nat),
{
    let n = (len + size - 1) / size;
    vstd::arithmetic::div_mod::lemma_fundamental_div_mod(len + size - 1, size);
    assert((i + 1) * size == i * size + size) by (nonlinear_arith);
    assert(0 <= i * size < len) by (nonlinear_arith)
        requires
            len + size - 1 == size * n + (len + size - 1) % size,
            0 <= (len + size - 1) % size < size,
            0 <= i < n,
            size > 0,
    ;
    if i + 1 == n {
        assert((i + 1) * size >= len) by (nonlinear_arith)
            requires
                len + size - 1 == size * n + (len + size - 1) % size,
                0 <= (len + size - 1) % size < size,
                i + 1 == n,
        ;
    } else {
        assert((i + 1) * size < len) by (nonlinear_arith)
            requires
                len + size - 1 == size * n + (len + size - 1) % size,
                0 <= (len + size - 1) % size < size,
                i + 2 <= n,
                size > 0,
        ;
    }
}

/// Split a frame into fragments of at most `max_fragment_bytes`.
pub fn build_shp_video_fragments(
    sequence_start: u16,
    frame_id: u32,
    ts_us: u64,
    frame_type: FrameType,
    payload: &[u8],
    max_fragment_bytes: usize,
) -> (r: Result<Vec<VideoFragment>, ShpError>)
    ensures
        r is Ok <==> fragment_count(payload@.len(), chunk_size(max_fragment_bytes)) <= 255,
        r matches Err(e) ==> e == ShpError::TooManyFragments,
        r matches Ok(frags) ==> fragments_of(
            frags@,
            sequence_start,
            frame_id,
            ts_us,
            frame_type,
            payload@,
            chunk_size(max_fragment_bytes),
        ),
{
    let size: usize = if max_fragment_bytes == 0 {
        1
    } else if max_fragment_bytes > MAX_PAYLOAD_LEN {
        MAX_PAYLOAD_LEN
    } else {
        max_fragment_bytes
    };
    let len: usize = payload.len();
    let total: u128 = if len == 0 {
        1
    } else {
        (len as u128 + size as u128 - 1) / size as u128
    };
    if total > 255 {
        return Err(ShpError::TooManyFragments);
    }
    let total_frags: u8 = total as u8;
    let mut out: Vec<VideoFragment> = Vec::new();
    let mut i: u8 = 0;
    let mut at: usize = 0;
    proof {
        lemma_some_fragment(len as int, size as int);
        assert(0 * size == 0) by (nonlinear_arith);
    }
    while i < total_frags
        invariant
            i <= total_frags,
            total_frags == fragment_count(payload@.len(), size as nat),
            len == payload@.len(),
            0 < size <= MAX_PAYLOAD_LEN,
            at == if i < total_frags {
                i * size
            } else {
                len as int
            },
            out@.len() == i,
            forall|k: int|
                0 <= k < i ==> is_fragment(
                    #[trigger] out@[k],
                    advanced(sequence_start, k),
                    frame_id,
                    ts_us,
                    frame_type,
                    chunk_of(payload@, size as nat, k),
                    k as u8,
                    total_frags,
                ),
        decreases total_frags - i,
    {
        proof {
            if len > 0 {
                lemma_chunks(len as int, size as int, i as int);
            } else {
                assert(i == 0);
                assert(i * size == 0) by (nonlinear_arith)
                    requires
                        i == 0,
                ;
                assert((i + 1) * size == size) by (nonlinear_arith)
                    requires
                        i == 0,
                ;
            }
        }
        let end: usize = if len - at < size {
            len
        } else {
            at + size
        };
        let chunk = vstd::slice::slice_subrange(payload, at, end);
        assert(chunk@ =~= chunk_of(payload@, size as nat, i as int));
        let seq: u16 = sequence_start.wrapping_add(i as u16);
        match build_one_fragment(seq, frame_id, ts_us, frame_type, chunk, i, total_frags) {
            Ok(f) => {
                out.push(f);
            },
            Err(_) => {
                // A chunk never exceeds what a header can tell.
                return Err(ShpError::PayloadTooLong);
            },
        }
        at = end;
        i = i + 1;
    }
    Ok(out)
}

/// What a receiver puts together from the chunks, in order.
pub open spec fn reassembled(frags: Seq<VideoFragment>) -> Seq<u8>
    decreases frags.len(),
{
    if frags.len() == 0 {
        Seq::empty()
    } else {
        reassembled(frags.drop_last()) + frags.last().bytes()
    }
}

/// Putting the chunks of a frame together gives the frame back.
pub proof fn law_fragments_reassemble(
    frags: Seq<VideoFragment>,
    sequence: u16,
    frame_id: u32,
    ts_us: u64,
    frame_type: FrameType,
    payload: Seq<u8>,
    max_fragment_bytes: usize,
)
    requires
        fragments_of(
            frags,
            sequence,
            frame_id,
            ts_us,
            frame_type,
            payload,
            chunk_size(max_fragment_bytes),
        ),
    ensures
        reassembled(frags) == payload,
{
    let size = chunk_size(max_fragment_bytes);
    if payload.len() == 0 {
        assert(frags.drop_last() =~= Seq::empty());
        assert(reassembled(frags.drop_last()) =~= Seq::empty());
        assert(frags[0].bytes() == chunk_of(payload, size, 0));
        assert(0 * size == 0) by (nonlinear_arith);
        assert((0 + 1) * size == size) by (nonlinear_arith);
        assert(chunk_of(payload, size, 0) =~= payload);
        assert(reassembled(frags) =~= payload);
    } else {
        lemma_reassembled_prefix(
            frags,
            sequence,
            frame_id,
            ts_us,
            frame_type,
            payload,
            size,
            frags.len() as int,
        );
        assert(frags.take(frags.len() as int) =~= frags);
    }
}

/// The first `k` chunks are the front of the frame.
proof fn lemma_reassembled_prefix(
    frags: Seq<VideoFragment>,
    sequence: u16,
    frame_id: u32,
    ts_us: u64,
    frame_type: FrameType,
    payload: Seq<u8>,
    size: nat,
    k: int,
)
    requires
        payload.len() > 0,
        size > 0,
        fragments_of(frags, sequence, frame_id, ts_us, frame_type, payload, size),
        0 <= k <= frags.len(),
    ensures
        reassembled(frags.take(k)) == payload.take(
            if k == frags.len() {
                payload.len() as int
            } else {
                k * size
            },
        ),
    decreases k,
{
    if k == 0 {
        lemma_some_fragment(payload.len() as int, size as int);
        assert(frags.take(0) =~= Seq::empty());
        assert(0 * size == 0) by (nonlinear_arith);
        assert(payload.take(0) =~= Seq::empty());
    } else {
        lemma_reassembled_prefix(
            frags,
            sequence,
            frame_id,
            ts_us,
            frame_type,
            payload,
            size,
            k - 1,
        );
        lemma_chunks(payload.len() as int, size as int, k - 1);
        assert(frags.take(k).drop_last() =~= frags.take(k - 1));
        assert(frags.take(k).last() == frags[k - 1]);
        let chunk = chunk_of(payload, size, k - 1);
        assert(frags[k - 1].bytes() == chunk);
        assert(payload.take((k - 1) * size) + chunk =~= payload.take(
            if k == frags.len() {
                payload.len() as int
            } else {
                k * size
            },
        ));
    }
}

/// A frame that fits in one fragment is sent as it is without fragmentation: the one fragment is
/// the one that [`build_shp_video_frame`] makes.
pub proof fn law_single_fragment_is_the_whole_frame(
    frags: Seq<VideoFragment>,
    sequence: u16,
    frame_id: u32,
    ts_us: u64,
    frame_type: FrameType,
    payload: Seq<u8>,
    max_fragment_bytes: usize,
)
    requires
        payload.len() <= chunk_size(max_fragment_bytes),
        fragments_of(
            frags,
            sequence,
            frame_id,
            ts_us,
            frame_type,
            payload,
            chunk_size(max_fragment_bytes),
        ),
    ensures
        frags.len() == 1,
        is_fragment(frags[0], sequence, frame_id, ts_us, frame_type, payload, 0, 1),
        !frags[0].common.flags.fragment,
        frags[0].video.marker,
{
    let size = chunk_size(max_fragment_bytes);
    if payload.len() > 0 {
        assert((payload.len() + size - 1) / size as int == 1) by {
            vstd::arithmetic::div_mod::lemma_fundamental_div_mod_converse(
                payload.len() + size - 1,
                size as int,
                1,
                payload.len() - 1,
            );
        }
    }
    assert(frags[0].bytes() == chunk_of(payload, size, 0));
    assert(0 * size == 0) by (nonlinear_arith);
    assert((0 + 1) * size == size) by (nonlinear_arith);
    assert(chunk_of(payload, size, 0) =~= payload);
}

/// Exactly the last fragment of a frame carries the marker, and every fragment tells its place.
pub proof fn law_marker_is_on_the_last(
    frags: Seq<VideoFragment>,
    sequence: u16,
    frame_id: u32,
    ts_us: u64,
    frame_type: FrameType,
    payload: Seq<u8>,
    max_fragment_bytes: usize,
    i: int,
)
    requires
        fragments_of(
            frags,
            sequence,
            frame_id,
            ts_us,
            frame_type,
            payload,
            chunk_size(max_fragment_bytes),
        ),
        frags.len() <= 255,
        0 <= i < frags.len(),
    ensures
        frags[i].video.marker <==> i + 1 == frags.len(),
        frags[i].video.frag_index == i,
        frags[i].video.total_frags == frags.len(),
        frags[i].common.flags.fragment <==> frags.len() > 1,
        frags[i].common.payload_len == frags[i].bytes().len(),
{
    let size = chunk_size(max_fragment_bytes);
    if payload.len() > 0 {
        lemma_chunks(payload.len() as int, size as int, i);
    } else {
        assert(0 * size == 0) by (nonlinear_arith);
        assert((0 + 1) * size == size) by (nonlinear_arith);
    }
    assert(frags[i].bytes() == chunk_of(payload, size, i));
}

/// The fragments of a frame are numbered one after the other, modulo 65536, and all carry the
/// frame's identity, time and type. They go out on the video channel with high priority.
pub proof fn law_fragments_carry_the_frame(
    frags: Seq<VideoFragment>,
    sequence: u16,
    frame_id: u32,
    ts_us: u64,
    frame_type: FrameType,
    payload: Seq<u8>,
    max_fragment_bytes: usize,
    i: int,
)
    requires
        fragments_of(
            frags,
            sequence,
            frame_id,
            ts_us,
            frame_type,
            payload,
            chunk_size(max_fragment_bytes),
        ),
        0 <= i < frags.len() <= 255,
    ensures
        frags[i].common.sequence == (sequence + i) % 0x1_0000,
        frags[i].common.timestamp_us.0 == ts_us,
        frags[i].common.channel == ChannelId::Video,
        frags[i].common.flags.last_fragment <==> frags.len() > 1 && i + 1 == frags.len(),
        frags[i].video.frame_id.0 == frame_id,
        frags[i].video.frame_type == frame_type,
        frags[i].video.encode_ts_us.0 == ts_us,
        frags[i].video.codec == Codec::H264,
        frags[i].video.priority == Priority::High,
        frags[i].video.monitor_id == 0,
{
    assert(is_fragment(
        frags[i],
        advanced(sequence, i),
        frame_id,
        ts_us,
        frame_type,
        chunk_of(payload, chunk_size(max_fragment_bytes), i),
        i as u8,
        frags.len() as u8,
    ));
}

/// A frame takes as few fragments as it can: all but the last hold as many bytes as were asked for,
/// at least one and at most 65535, and the last holds what is left.
pub proof fn law_fragments_are_full(
    frags: Seq<VideoFragment>,
    sequence: u16,
    frame_id: u32,
    ts_us: u64,
    frame_type: FrameType,
    payload: Seq<u8>,
    max_fragment_bytes: usize,
    i: int,
)
    requires
        fragments_of(
            frags,
            sequence,
            frame_id,
            ts_us,
            frame_type,
            payload,
            chunk_size(max_fragment_bytes),
        ),
        0 <= i < frags.len(),
    ensures
        ({
            let size = if max_fragment_bytes == 0 {
                1int
            } else if max_fragment_bytes > 65535 {
                65535int
            } else {
                max_fragment_bytes as int
            };
            &&& i + 1 < frags.len() ==> frags[i].bytes().len() == size
            &&& i + 1 == frags.len() ==> frags[i].bytes().len() == payload.len() - i * size
                && frags[i].bytes().len() <= size && (payload.len() > 0 ==> frags[i].bytes().len()
                > 0)
            &&& frags[i].bytes() == payload.subrange(i * size, i * size + frags[i].bytes().len())
        }),
{
    let size = chunk_size(max_fragment_bytes);
    if payload.len() > 0 {
        lemma_chunks(payload.len() as int, size as int, i);
    } else {
        assert(0 * size == 0) by (nonlinear_arith);
        assert((0 + 1) * size == size) by (nonlinear_arith);
    }
    assert(frags[i].bytes() == chunk_of(payload, size, i));
}

/// How many fragments a frame takes: one when it is empty, and else as many as it takes to hold it,
/// and not one more.
pub proof fn law_fragments_are_few(len: nat, size: nat)
    requires
        size > 0,
    ensures
        fragment_count(0, size) == 1,
        len > 0 ==> (fragment_count(len, size) - 1) * size < len <= fragment_count(len, size)
            * size,
{
    if len > 0 {
        let n = fragment_count(len, size) as int;
        lemma_some_fragment(len as int, size as int);
        lemma_chunks(len as int, size as int, n - 1);
    }
}

/// A frame that goes out in one piece is no fragment of anything.
pub proof fn law_whole_frame_is_no_fragment(
    f: VideoFragment,
    sequence: u16,
    frame_id: u32,
    ts_us: u64,
    frame_type: FrameType,
    payload: Seq<u8>,
)
    requires
        payload.len() <= 65535,
        is_fragment(f, sequence, frame_id, ts_us, frame_type, payload, 0, 1),
    ensures
        f.bytes() == payload,
        f.common.channel == ChannelId::Video,
        !f.common.flags.fragment,
        !f.common.flags.last_fragment,
        f.common.sequence == sequence,
        f.common.timestamp_us.0 == ts_us,
        f.common.payload_len == payload.len(),
        f.video.frame_id.0 == frame_id,
        f.video.frag_index == 0,
        f.video.total_frags == 1,
        f.video.codec == Codec::H264,
        f.video.frame_type == frame_type,
        f.video.priority == Priority::High,
        f.video.monitor_id == 0,
        f.video.marker,
        f.video.encode_ts_us.0 == ts_us,
{
}

} // verus!
