use vstd::prelude::*;

verus! {

pub const TS_PACKET_SIZE: usize = 188;

pub const SYNC_BYTE: u8 = 0x47;

/// One step of the MSB-first CRC-32/MPEG-2 register: shift left, and fold in
/// the polynomial when a one falls off the top.
pub open spec fn crc_shift(c: u32) -> u32 {
    if c & 0x8000_0000 != 0 {
        (c << 1) ^ 0x04C1_1DB7
    } else {
        c << 1
    }
}

/// `k` steps of the register.
pub open spec fn crc_shifts(c: u32, k: nat) -> u32
    decreases k,
{
    if k == 0 {
        c
    } else {
        crc_shift(crc_shifts(c, (k - 1) as nat))
    }
}

/// The register after taking in byte `b`.
pub open spec fn crc_byte(c: u32, b: u8) -> u32 {
    crc_shifts(c ^ ((b as u32) << 24u32), 8)
}

/// The register after taking in the bytes of `s`, from `init`.
pub open spec fn crc_update(init: u32, s: Seq<u8>) -> u32
    decreases s.len(),
{
    if s.len() == 0 {
        init
    } else {
        crc_byte(crc_update(init, s.drop_last()), s.last())
    }
}

/// CRC-32/MPEG-2 of `s`: initial value all ones, no reflection, no final xor.
pub open spec fn crc32_mpeg2_of(s: Seq<u8>) -> u32 {
    crc_update(0xFFFF_FFFF, s)
}

pub fn crc32_mpeg2(data: &[u8]) -> (r: u32)
    ensures
        r == crc32_mpeg2_of(data@),
{
    let mut crc: u32 = 0xFFFF_FFFF;
    let mut i: usize = 0;
    proof {
        assert(data@.subrange(0, 0) =~= Seq::<u8>::empty());
    }
    while i < data.len()
        invariant
            i <= data@.len(),
            crc == crc_update(0xFFFF_FFFF, data@.subrange(0, i as int)),
        decreases data@.len() - i,
    {
        let byte = data[i];
        proof {
            let next = data@.subrange(0, i + 1);
            assert(next.drop_last() =~= data@.subrange(0, i as int));
            assert(next.last() == byte);
        }
        crc = crc ^ ((byte as u32) << 24u32);
        let ghost start = crc;
        let mut k: usize = 0;
        while k < 8
            invariant
                k <= 8,
                crc == crc_shifts(start, k as nat),
            decreases 8 - k,
        {
            if crc & 0x8000_0000 != 0 {
                crc = (crc << 1u32) ^ 0x04C1_1DB7;
            } else {
                crc = crc << 1u32;
            }
            k = k + 1;
        }
        i = i + 1;
    }
    assert(data@.subrange(0, i as int) =~= data@);
    crc
}


/// The first four bytes of a CRC-32 as they go on the wire, most significant first.
pub open spec fn crc_bytes(c: u32) -> Seq<u8> {
    seq![
        ((c >> 24u32) & 0xFF) as u8,
        ((c >> 16u32) & 0xFF) as u8,
        ((c >> 8u32) & 0xFF) as u8,
        (c & 0xFF) as u8,
    ]
}

/// `n` stuffing bytes.
pub open spec fn stuffing(n: nat) -> Seq<u8> {
    Seq::new(n, |_i: int| 0xFFu8)
}

/// The continuity counter that follows `cc`.
pub open spec fn next_cc(cc: u8) -> u8 {
    ((cc + 1) % 16) as u8
}

/// The fourth header byte: payload only, with continuity counter `cc`.
pub open spec fn payload_only(cc: u8) -> u8 {
    0x10 | (cc & 0x0F)
}

/// The fourth header byte: adaptation field and payload, counter `cc`.
pub open spec fn adaptation_and_payload(cc: u8) -> u8 {
    0x30 | (cc & 0x0F)
}

/// The program association section: one program, number 1, whose map table
/// is on PID 0x1000.
pub open spec fn pat_section() -> Seq<u8> {
    seq![0x00u8, 0xB0, 0x0D, 0x00, 0x01, 0xC1, 0x00, 0x00, 0x00, 0x01, 0xF0, 0x00]
}

/// The program map section: program 1 carries one MPEG-1 video stream on
/// PID 0x0100, which is also the PCR PID.
pub open spec fn pmt_section() -> Seq<u8> {
    seq![
        0x02u8, 0xB0, 0x12, 0x00, 0x01, 0xC1, 0x00, 0x00, 0xE1, 0x00, 0xF0, 0x00, 0x01, 0xE1, 0x00,
        0xF0, 0x00,
    ]
}

/// A packet holding a whole section that starts in it: header for `pid_hi`
/// (with the unit-start bit) and `pid_lo`, pointer field, section, CRC, stuffing.
pub open spec fn section_packet(pid_hi: u8, pid_lo: u8, cc: u8, section: Seq<u8>) -> Seq<u8> {
    seq![SYNC_BYTE, pid_hi, pid_lo, payload_only(cc), 0x00] + section + crc_bytes(
        crc32_mpeg2_of(section),
    ) + stuffing((188 - 9 - section.len()) as nat)
}

pub open spec fn pat_packet(cc: u8) -> Seq<u8> {
    section_packet(0x40, 0x00, cc, pat_section())
}

pub open spec fn pmt_packet(cc: u8) -> Seq<u8> {
    section_packet(0x50, 0x00, cc, pmt_section())
}

fn push_slice(dst: &mut Vec<u8>, src: &[u8], start: usize, n: usize)
    requires
        start + n <= src@.len(),
    ensures
        final(dst)@ == old(dst)@ + src@.subrange(start as int, start + n),
{
    let len = src.len();
    let mut i: usize = 0;
    while i < n
        invariant
            start + n <= len,
            len == src@.len(),
            i <= n,
            dst@ == old(dst)@ + src@.subrange(start as int, start + i),
        decreases n - i,
    {
        dst.push(src[start + i]);
        i = i + 1;
        assert(dst@ =~= old(dst)@ + src@.subrange(start as int, start + i));
    }
}

fn push_stuffing(dst: &mut Vec<u8>, n: usize)
    ensures
        final(dst)@ == old(dst)@ + stuffing(n as nat),
{
    let mut i: usize = 0;
    while i < n
        invariant
            i <= n,
            dst@ == old(dst)@ + stuffing(i as nat),
        decreases n - i,
    {
        dst.push(0xFF);
        i = i + 1;
        assert(dst@ =~= old(dst)@ + stuffing(i as nat));
    }
}

proof fn lemma_cc_step(cc: u8)
    requires
        cc < 16,
    ensures
        ((cc + 1) as u8) & 0x0F == next_cc(cc),
        next_cc(cc) < 16,
{
    let c1 = (cc + 1) as u8;
    assert(c1 & 0x0F == c1 % 16) by (bit_vector);
}

/// Builds the packet of a section; the section sits right after the pointer field.
fn section_packet_vec(pid_hi: u8, pid_lo: u8, cc: u8, section: &Vec<u8>) -> (r: Vec<u8>)
    requires
        section@.len() <= 188 - 9,
    ensures
        r@ == section_packet(pid_hi, pid_lo, cc, section@),
        r@.len() == TS_PACKET_SIZE,
{
    let mut pkt: Vec<u8> = vec![SYNC_BYTE, pid_hi, pid_lo, 0x10 | (cc & 0x0F), 0x00];
    push_slice(&mut pkt, section.as_slice(), 0, section.len());
    let crc = crc32_mpeg2(section.as_slice());
    pkt.push(((crc >> 24u32) & 0xFF) as u8);
    pkt.push(((crc >> 16u32) & 0xFF) as u8);
    pkt.push(((crc >> 8u32) & 0xFF) as u8);
    pkt.push((crc & 0xFF) as u8);
    push_stuffing(&mut pkt, 188 - 9 - section.len());
    assert(section@.subrange(0, section@.len() as int) =~= section@);
    assert(pkt@ =~= section_packet(pid_hi, pid_lo, cc, section@));
    pkt
}

/// One video packet carrying `chunk` (1 to 184 bytes) with counter `cc`;
/// `first` sets the unit-start bit. A short chunk is preceded by an
/// adaptation field that pads the packet to its full size.
pub open spec fn video_packet(chunk: Seq<u8>, cc: u8, first: bool) -> Seq<u8> {
    let head = seq![SYNC_BYTE, if first { 0x41u8 } else { 0x01u8 }, 0x00u8];
    if chunk.len() >= 184 {
        head + seq![payload_only(cc)] + chunk
    } else if chunk.len() == 183 {
        head + seq![adaptation_and_payload(cc), 0x00u8] + chunk
    } else {
        let af_len = 183 - chunk.len();
        head + seq![adaptation_and_payload(cc), af_len as u8, 0x00u8] + stuffing(
            (af_len - 1) as nat,
        ) + chunk
    }
}

/// The packets that carry `data`, 184 bytes to a packet, counters from `cc`.
pub open spec fn video_packets(data: Seq<u8>, cc: u8, first: bool) -> Seq<u8>
    decreases data.len(),
{
    if data.len() == 0 {
        Seq::empty()
    } else {
        let n = if data.len() >= 184 { 184 } else { data.len() as int };
        video_packet(data.take(n), cc, first) + video_packets(data.skip(n), next_cc(cc), false)
    }
}

/// How many packets carry `len` bytes.
pub open spec fn packet_count(len: nat) -> nat {
    ((len + 183) / 184) as nat
}

/// The five bytes of a presentation time stamp with its marker bits.
pub open spec fn pts_bytes(pts: u64) -> Seq<u8> {
    seq![
        (0x21u64 | ((pts >> 29u64) & 0x0E)) as u8,
        ((pts >> 22u64) & 0xFF) as u8,
        (((pts >> 14u64) & 0xFE) | 0x01) as u8,
        ((pts >> 7u64) & 0xFF) as u8,
        (((pts << 1u64) & 0xFE) | 0x01) as u8,
    ]
}

/// The PES packet length field for a payload of `n` bytes after it; zero
/// (unbounded) when it does not fit in 16 bits.
pub open spec fn pes_length_bytes(n: nat) -> Seq<u8> {
    if n <= 65535 {
        seq![(n / 256) as u8, (n % 256) as u8]
    } else {
        seq![0u8, 0u8]
    }
}

/// A video PES packet around `data`, stamped with `pts`.
pub open spec fn pes_packet(data: Seq<u8>, pts: u64) -> Seq<u8> {
    seq![0x00u8, 0x00, 0x01, 0xE0] + pes_length_bytes(3 + 5 + data.len()) + seq![
        0x80u8,
        0x80,
        0x05,
    ] + pts_bytes(pts) + data
}

/// Multiplexes MPEG-1 video into an MPEG transport stream, keeping one
/// continuity counter for each of its three PIDs.
pub struct TsMuxer {
    pat_cc: u8,
    pmt_cc: u8,
    video_cc: u8,
}

impl TsMuxer {
    pub closed spec fn pat_counter(&self) -> u8 {
        self.pat_cc
    }

    pub closed spec fn pmt_counter(&self) -> u8 {
        self.pmt_cc
    }

    pub closed spec fn video_counter(&self) -> u8 {
        self.video_cc
    }

    /// Every counter holds four bits.
    pub open spec fn wf(&self) -> bool {
        &&& self.pat_counter() < 16
        &&& self.pmt_counter() < 16
        &&& self.video_counter() < 16
    }

    pub fn new() -> (r: TsMuxer)
        ensures
            r.wf(),
            r.pat_counter() == 0,
            r.pmt_counter() == 0,
            r.video_counter() == 0,
    {
        TsMuxer { pat_cc: 0, pmt_cc: 0, video_cc: 0 }
    }

    /// The program association table packet; advances its counter.
    pub fn generate_pat(&mut self) -> (r: Vec<u8>)
        requires
            old(self).wf(),
        ensures
            final(self).wf(),
            r@ == pat_packet(old(self).pat_counter()),
            r@.len() == TS_PACKET_SIZE,
            final(self).pat_counter() == next_cc(old(self).pat_counter()),
            final(self).pmt_counter() == old(self).pmt_counter(),
            final(self).video_counter() == old(self).video_counter(),
    {
        let section: Vec<u8> = vec![0x00, 0xB0, 0x0D, 0x00, 0x01, 0xC1, 0x00, 0x00, 0x00, 0x01, 0xF0, 0x00];
        assert(section@ =~= pat_section());
        let pkt = section_packet_vec(0x40, 0x00, self.pat_cc, &section);
        proof {
            lemma_cc_step(self.pat_cc);
        }
        self.pat_cc = (self.pat_cc + 1) & 0x0F;
        pkt
    }

    /// The program map table packet; advances its counter.
    pub fn generate_pmt(&mut self) -> (r: Vec<u8>)
        requires
            old(self).wf(),
        ensures
            final(self).wf(),
            r@ == pmt_packet(old(self).pmt_counter()),
            r@.len() == TS_PACKET_SIZE,
            final(self).pmt_counter() == next_cc(old(self).pmt_counter()),
            final(self).pat_counter() == old(self).pat_counter(),
            final(self).video_counter() == old(self).video_counter(),
    {
        let section: Vec<u8> = vec![
            0x02, 0xB0, 0x12, 0x00, 0x01, 0xC1, 0x00, 0x00, 0xE1, 0x00, 0xF0, 0x00, 0x01, 0xE1, 0x00,
            0xF0, 0x00,
        ];
        assert(section@ =~= pmt_section());
        let pkt = section_packet_vec(0x50, 0x00, self.pmt_cc, &section);
        proof {
            lemma_cc_step(self.pmt_cc);
        }
        self.pmt_cc = (self.pmt_cc + 1) & 0x0F;
        pkt
    }

    /// The stream header: a PAT packet followed by a PMT packet.
    pub fn generate_header(&mut self) -> (r: Vec<u8>)
        requires
            old(self).wf(),
        ensures
            final(self).wf(),
            r@ == pat_packet(old(self).pat_counter()) + pmt_packet(old(self).pmt_counter()),
            r@.len() == 2 * TS_PACKET_SIZE,
            final(self).pat_counter() == next_cc(old(self).pat_counter()),
            final(self).pmt_counter() == next_cc(old(self).pmt_counter()),
            final(self).video_counter() == old(self).video_counter(),
    {
        let mut result = self.generate_pat();
        let pmt = self.generate_pmt();
        push_slice(&mut result, pmt.as_slice(), 0, pmt.len());
        assert(pmt@.subrange(0, pmt@.len() as int) =~= pmt@);
        result
    }

    /// Cuts `data` into video packets, 184 bytes to a packet, the first one
    /// marked as the start of a unit; advances the video counter once per packet.
    pub fn packetize(&mut self, data: &[u8]) -> (r: Vec<u8>)
        requires
            old(self).wf(),
        ensures
            final(self).wf(),
            r@ == video_packets(data@, old(self).video_counter(), true),
            r@.len() == packet_count(data@.len()) * TS_PACKET_SIZE,
            final(self).video_counter() == (old(self).video_counter() + packet_count(data@.len()))
                % 16,
            final(self).pat_counter() == old(self).pat_counter(),
            final(self).pmt_counter() == old(self).pmt_counter(),
    {
        let len = data.len();
        let mut result: Vec<u8> = Vec::new();
        let mut offset: usize = 0;
        let mut first = true;
        let ghost cc0 = self.video_cc;
        let ghost mut count: nat = 0;
        proof {
            assert(data@.skip(0) =~= data@);
        }
        while offset < len
            invariant
                self.wf(),
                self.pat_cc == old(self).pat_cc,
                self.pmt_cc == old(self).pmt_cc,
                cc0 == old(self).video_cc,
                len == data@.len(),
                offset <= len,
                first == (offset == 0),
                offset < len ==> offset == count * 184,
                offset == len ==> count == packet_count(len as nat),
                self.video_cc == (cc0 + count) % 16,
                result@.len() == count * 188,
                video_packets(data@, cc0, true) == result@ + video_packets(
                    data@.skip(offset as int),
                    self.video_cc,
                    first,
                ),
            decreases len - offset,
        {
            let cc = self.video_cc;
            let remaining = len - offset;
            let mut pkt: Vec<u8> = vec![SYNC_BYTE, if first { 0x41 } else { 0x01 }, 0x00];
            let n: usize = if remaining >= 184 { 184 } else { remaining };
            let ghost rest = data@.skip(offset as int);
            proof {
                assert(rest.take(n as int) =~= data@.subrange(offset as int, offset + n));
                assert(rest.skip(n as int) =~= data@.skip(offset + n));
            }
            if remaining >= 184 {
                pkt.push(0x10 | (cc & 0x0F));
                push_slice(&mut pkt, data, offset, 184);
            } else if remaining == 183 {
                pkt.push(0x30 | (cc & 0x0F));
                pkt.push(0x00);
                push_slice(&mut pkt, data, offset, 183);
            } else {
                let af_len = 183 - remaining;
                pkt.push(0x30 | (cc & 0x0F));
                pkt.push(af_len as u8);
                pkt.push(0x00);
                push_stuffing(&mut pkt, af_len - 1);
                push_slice(&mut pkt, data, offset, remaining);
            }
            assert(pkt@ =~= video_packet(rest.take(n as int), cc, first));
            push_slice(&mut result, pkt.as_slice(), 0, pkt.len());
            proof {
                assert(pkt@.subrange(0, pkt@.len() as int) =~= pkt@);
                lemma_cc_step(cc);
            }
            offset = offset + n;
            first = false;
            self.video_cc = (cc + 1) & 0x0F;
            proof {
                count = count + 1;
            }
        }
        proof {
            assert(data@.skip(len as int) =~= Seq::<u8>::empty());
            assert(result@ =~= video_packets(data@, cc0, true));
        }
        result
    }

    /// Wraps one encoded frame in a PES packet stamped with `pts_90k` (in
    /// 90 kHz ticks) and cuts it into video packets.
    pub fn mux_video(&mut self, data: &[u8], pts_90k: u64) -> (r: Vec<u8>)
        requires
            old(self).wf(),
            data@.len() <= usize::MAX - 8,
        ensures
            final(self).wf(),
            r@ == video_packets(pes_packet(data@, pts_90k), old(self).video_counter(), true),
            final(self).video_counter() == (old(self).video_counter() + packet_count(
                pes_packet(data@, pts_90k).len(),
            )) % 16,
            final(self).pat_counter() == old(self).pat_counter(),
            final(self).pmt_counter() == old(self).pmt_counter(),
    {
        let mut pes: Vec<u8> = vec![0x00, 0x00, 0x01, 0xE0];
        let pes_payload_len = 3 + 5 + data.len();
        if pes_payload_len <= 65535 {
            pes.push((pes_payload_len / 256) as u8);
            pes.push((pes_payload_len % 256) as u8);
        } else {
            pes.push(0x00);
            pes.push(0x00);
        }
        pes.push(0x80);
        pes.push(0x80);
        pes.push(0x05);
        pes.push((0x21u64 | ((pts_90k >> 29u64) & 0x0E)) as u8);
        pes.push(((pts_90k >> 22u64) & 0xFF) as u8);
        pes.push((((pts_90k >> 14u64) & 0xFE) | 0x01) as u8);
        pes.push(((pts_90k >> 7u64) & 0xFF) as u8);
        pes.push((((pts_90k << 1u64) & 0xFE) | 0x01) as u8);
        push_slice(&mut pes, data, 0, data.len());
        assert(data@.subrange(0, data@.len() as int) =~= data@);
        assert(pes@ =~= pes_packet(data@, pts_90k));
        self.packetize(pes.as_slice())
    }
}

} // verus!
