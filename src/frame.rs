use vstd::prelude::*;

use crate::ts_mux::{pat_packet, pes_packet, pmt_packet, video_packets, TsMuxer};

verus! {

/// Frames per second of the encoded stream.
pub const FRAME_RATE: u64 = 25;

/// Every this many frames the stream header is sent again.
pub const HEADER_INTERVAL: u64 = 30;

/// The first `height` rows of a plane whose rows start `src_stride` bytes
/// apart, each cut to `width` bytes, one after the other.
pub open spec fn plane_rows(src: Seq<u8>, src_stride: nat, width: nat, height: nat) -> Seq<u8>
    decreases height,
{
    if height == 0 {
        Seq::empty()
    } else {
        let r = (height - 1) as nat;
        plane_rows(src, src_stride, width, r) + src.subrange(
            (r * src_stride) as int,
            (r * src_stride + width) as int,
        )
    }
}

proof fn lemma_plane_rows_len(src: Seq<u8>, src_stride: nat, width: nat, height: nat)
    requires
        width <= src_stride,
        src_stride * height <= src.len(),
    ensures
        plane_rows(src, src_stride, width, height).len() == width * height,
    decreases height,
{
    if height > 0 {
        let r = (height - 1) as nat;
        assert(src_stride * r + src_stride == src_stride * height) by (nonlinear_arith)
            requires
                r + 1 == height,
        ;
        assert(r * src_stride == src_stride * r) by (nonlinear_arith);
        assert(src_stride * r <= src_stride * height) by (nonlinear_arith)
            requires
                r + 1 == height,
        ;
        lemma_plane_rows_len(src, src_stride, width, r);
        assert(width * r + width == width * height) by (nonlinear_arith)
            requires
                r + 1 == height,
        ;
        assert(r * src_stride + width <= src.len());
        let row = src.subrange((r * src_stride) as int, (r * src_stride + width) as int);
        assert(row.len() == width);
        assert(plane_rows(src, src_stride, width, r).len() == width * r);
        assert(plane_rows(src, src_stride, width, height) == plane_rows(src, src_stride, width, r)
            + row);
    } else {
        assert(width * height == 0) by (nonlinear_arith)
            requires
                height == 0,
        ;
    }
}

/// Appends the first `height` rows of `src` to `dst`, `width` bytes of
/// each; rows of `src` start `src_stride` bytes apart.
pub fn copy_plane(dst: &mut Vec<u8>, src: &[u8], src_stride: usize, width: usize, height: usize)
    requires
        width <= src_stride,
        src_stride * height <= src@.len(),
    ensures
        final(dst)@ == old(dst)@ + plane_rows(src@, src_stride as nat, width as nat, height as nat),
{
    let len = src.len();
    let mut r: usize = 0;
    let mut offset: usize = 0;
    while r < height
        invariant
            width <= src_stride,
            src_stride * height <= len,
            len == src@.len(),
            r <= height,
            offset == src_stride * r,
            dst@ == old(dst)@ + plane_rows(src@, src_stride as nat, width as nat, r as nat),
        decreases height - r,
    {
        proof {
            assert(src_stride * r + src_stride <= src_stride * height) by (nonlinear_arith)
                requires
                    r < height,
            ;
            assert(r * src_stride == src_stride * r) by (nonlinear_arith);
        }
        let ghost before = dst@;
        let mut c: usize = 0;
        while c < width
            invariant
                width <= src_stride,
                offset + src_stride <= len,
                len == src@.len(),
                c <= width,
                dst@ == before + src@.subrange(offset as int, offset + c),
            decreases width - c,
        {
            dst.push(src[offset + c]);
            c = c + 1;
            assert(dst@ =~= before + src@.subrange(offset as int, offset + c));
        }
        proof {
            assert(src_stride * (r + 1) == src_stride * r + src_stride) by (nonlinear_arith);
            assert(plane_rows(src@, src_stride as nat, width as nat, (r + 1) as nat)
                == plane_rows(src@, src_stride as nat, width as nat, r as nat) + src@.subrange(
                (r * src_stride) as int,
                (r * src_stride + width) as int,
            ));
            assert(dst@ =~= old(dst)@ + plane_rows(src@, src_stride as nat, width as nat, (r + 1) as nat));
        }
        offset = offset + src_stride;
        r = r + 1;
    }
}

/// `n` zero bytes.
pub open spec fn zeros(n: nat) -> Seq<u8> {
    Seq::new(n, |_i: int| 0u8)
}

fn push_zeros(dst: &mut Vec<u8>, n: usize)
    ensures
        final(dst)@ == old(dst)@ + zeros(n as nat),
{
    let mut i: usize = 0;
    while i < n
        invariant
            i <= n,
            dst@ == old(dst)@ + zeros(i as nat),
        decreases n - i,
    {
        dst.push(0);
        i = i + 1;
        assert(dst@ =~= old(dst)@ + zeros(i as nat));
    }
}

/// A decoded frame packed as planar YUV 4:2:0: the luma plane of
/// `width * height` bytes, then each chroma plane in a region of a quarter of
/// that, holding `width / 2` by `height / 2` samples and zeros after them.
pub open spec fn i420_frame(
    y: Seq<u8>,
    u: Seq<u8>,
    v: Seq<u8>,
    strides: (nat, nat, nat),
    width: nat,
    height: nat,
) -> Seq<u8> {
    let pixels = width * height;
    let cw = width / 2;
    let ch = height / 2;
    let cu = plane_rows(u, strides.1, cw, ch);
    let cv = plane_rows(v, strides.2, cw, ch);
    plane_rows(y, strides.0, width, height) + cu + zeros((pixels / 4 - cu.len()) as nat) + cv
        + zeros((pixels + pixels / 2 - pixels - pixels / 4 - cv.len()) as nat)
}

/// Packs the three planes of a decoded frame into one planar YUV 4:2:0
/// buffer of `width * height * 3 / 2` bytes.
pub fn pack_i420(
    y: &[u8],
    u: &[u8],
    v: &[u8],
    strides: (usize, usize, usize),
    width: usize,
    height: usize,
) -> (r: Vec<u8>)
    requires
        width <= strides.0,
        width / 2 <= strides.1,
        width / 2 <= strides.2,
        strides.0 * height <= y@.len(),
        strides.1 * (height / 2) <= u@.len(),
        strides.2 * (height / 2) <= v@.len(),
        width * height + width * height / 2 <= usize::MAX,
    ensures
        r@ == i420_frame(
            y@,
            u@,
            v@,
            (strides.0 as nat, strides.1 as nat, strides.2 as nat),
            width as nat,
            height as nat,
        ),
        r@.len() == width * height + width * height / 2,
{
    let ghost ss = (strides.0 as nat, strides.1 as nat, strides.2 as nat);
    proof {
        assert(width * height <= strides.0 * height) by (nonlinear_arith)
            requires
                width <= strides.0,
        ;
        lemma_plane_rows_len(u@, ss.1, (width / 2) as nat, (height / 2) as nat);
        lemma_plane_rows_len(v@, ss.2, (width / 2) as nat, (height / 2) as nat);
        assert((width / 2) * (height / 2) <= width * height / 4) by (nonlinear_arith);
    }
    let pixels = width * height;
    let cw = width / 2;
    let ch = height / 2;
    let quarter = pixels / 4;
    let mut out: Vec<u8> = Vec::new();
    copy_plane(&mut out, y, strides.0, width, height);
    copy_plane(&mut out, u, strides.1, cw, ch);
    push_zeros(&mut out, quarter - cw * ch);
    copy_plane(&mut out, v, strides.2, cw, ch);
    push_zeros(&mut out, pixels + pixels / 2 - pixels - quarter - cw * ch);
    proof {
        lemma_plane_rows_len(y@, ss.0, width as nat, height as nat);
    }
    assert(out@ =~= i420_frame(y@, u@, v@, ss, width as nat, height as nat));
    out
}

/// The presentation time, in 90 kHz ticks, of frame number `frame`.
pub open spec fn pts_of_frame(frame: u64) -> u64 {
    (frame * 90000 / FRAME_RATE as int) as u64
}

/// What goes out for one encoded packet of frame number `frame`: the stream
/// header first when the frame number is a multiple of the header interval,
/// then the packet's video packets.
pub fn mux_encoded(muxer: &mut TsMuxer, frame: u64, data: &[u8]) -> (r: Vec<u8>)
    requires
        old(muxer).wf(),
        frame <= u64::MAX / 90000,
        data@.len() <= usize::MAX - 8,
    ensures
        final(muxer).wf(),
        frame % HEADER_INTERVAL == 0 ==> r@ == pat_packet(old(muxer).pat_counter()) + pmt_packet(
            old(muxer).pmt_counter(),
        ) + video_packets(
            pes_packet(data@, pts_of_frame(frame)),
            old(muxer).video_counter(),
            true,
        ),
        frame % HEADER_INTERVAL != 0 ==> r@ == video_packets(
            pes_packet(data@, pts_of_frame(frame)),
            old(muxer).video_counter(),
            true,
        ),
{
    let pts_90k = frame * 90000 / FRAME_RATE;
    let mut out: Vec<u8> = Vec::new();
    if frame % HEADER_INTERVAL == 0 {
        out = muxer.generate_header();
    }
    let video = muxer.mux_video(data, pts_90k);
    let ghost before = out@;
    let mut i: usize = 0;
    while i < video.len()
        invariant
            i <= video@.len(),
            out@ == before + video@.subrange(0, i as int),
        decreases video@.len() - i,
    {
        out.push(video[i]);
        i = i + 1;
        assert(out@ =~= before + video@.subrange(0, i as int));
    }
    assert(video@.subrange(0, i as int) =~= video@);
    assert(before =~= Seq::<u8>::empty() + before);
    out
}

} // verus!
