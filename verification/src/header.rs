//! IPv6 fixed-header codec: a bit-for-bit in-memory mirror of the 40-byte
//! wire header (RFC 8200 §3), with a lossless parse/serialize pair and
//! accessors that hide the packed-bit encoding.
//!
//! The in-memory value never relies on the host's struct layout: the wire
//! image is defined by [`IP6Header::wire_bytes`] and produced only by
//! explicit serialization. The 16-bit payload length is held exactly as the
//! two network-order wire bytes (byte 4 in the low half, byte 5 in the high
//! half); the accessors swap to and from the host-order value on every use.

use vstd::prelude::*;

use crate::address::IPAddr;
use crate::ip6_nh;

verus! {

broadcast use vstd::array::group_array_axioms;

/// Failure of a codec operation on a caller-supplied buffer.
#[derive(Copy, Clone, Debug, PartialEq, Eq, Structural)]
pub enum HeaderError {
    /// The buffer handed to `parse` or `serialize` holds fewer than the 40
    /// bytes of the fixed header. Recoverable: nothing was read or written
    /// beyond the length check.
    BufferTooShort,
}

/// The 40-byte IPv6 fixed header, one field per wire region.
#[derive(Copy, Clone, Debug)]
#[verifier::ext_equal]
pub struct IP6Header {
    /// Wire bytes 0..4: version (4 bits), traffic class (8 bits) and flow
    /// label (20 bits), packed exactly as on the wire.
    pub version_class_flow: [u8; 4],
    /// Wire bytes 4..6 as stored: byte 4 in the low half, byte 5 in the
    /// high half. The semantic (host-order) value is
    /// [`IP6Header::payload_len_spec`].
    pub payload_len: u16,
    /// Wire byte 6: protocol number of the following header (`ip6_nh`).
    pub next_header: u8,
    /// Wire byte 7: hop limit.
    pub hop_limit: u8,
    /// Wire bytes 8..24.
    pub src_addr: IPAddr,
    /// Wire bytes 24..40.
    pub dst_addr: IPAddr,
}

impl IP6Header {
    /// Wire byte `i` of the serialized header, `0 <= i < 40`.
    pub open spec fn wire_byte(self, i: int) -> u8
        recommends
            0 <= i < 40,
    {
        if i < 4 {
            self.version_class_flow[i]
        } else if i == 4 {
            (self.payload_len & 0xff) as u8
        } else if i == 5 {
            (self.payload_len >> 8) as u8
        } else if i == 6 {
            self.next_header
        } else if i == 7 {
            self.hop_limit
        } else if i < 24 {
            self.src_addr@[i - 8]
        } else {
            self.dst_addr@[i - 24]
        }
    }

    /// The full 40-byte wire image of the header.
    pub open spec fn wire_bytes(self) -> Seq<u8> {
        Seq::new(40, |i: int| self.wire_byte(i))
    }

    /// The header read back from the first 40 bytes of `b`: bytes copied
    /// verbatim into their regions, the payload-length wire bytes stored
    /// with byte 4 in the low half.
    pub open spec fn parse_spec(b: Seq<u8>) -> IP6Header
        recommends
            b.len() >= 40,
    {
        IP6Header {
            version_class_flow: [b[0], b[1], b[2], b[3]],
            payload_len: ((b[4] as u16) | ((b[5] as u16) << 8)) as u16,
            next_header: b[6],
            hop_limit: b[7],
            src_addr: IPAddr(
                [
                    b[8],
                    b[9],
                    b[10],
                    b[11],
                    b[12],
                    b[13],
                    b[14],
                    b[15],
                    b[16],
                    b[17],
                    b[18],
                    b[19],
                    b[20],
                    b[21],
                    b[22],
                    b[23],
                ],
            ),
            dst_addr: IPAddr(
                [
                    b[24],
                    b[25],
                    b[26],
                    b[27],
                    b[28],
                    b[29],
                    b[30],
                    b[31],
                    b[32],
                    b[33],
                    b[34],
                    b[35],
                    b[36],
                    b[37],
                    b[38],
                    b[39],
                ],
            ),
        }
    }

    /// The version field: the top 4 bits of wire byte 0.
    pub open spec fn version_spec(self) -> u8 {
        ((self.version_class_flow[0] & 0xf0) >> 4) as u8
    }

    /// The 8-bit traffic class: low nibble of byte 0 above high nibble of
    /// byte 1.
    pub open spec fn traffic_class_spec(self) -> u8 {
        (((self.version_class_flow[0] & 0x0f) << 4) | ((self.version_class_flow[1] & 0xf0) >> 4)) as u8
    }

    /// The 6-bit DSCP: the top 6 bits of the traffic class.
    pub open spec fn dscp_spec(self) -> u8 {
        ((self.traffic_class_spec() & 0xfc) >> 2) as u8
    }

    /// The 2-bit ECN: the bottom 2 bits of the traffic class.
    pub open spec fn ecn_spec(self) -> u8 {
        (self.traffic_class_spec() & 0x03) as u8
    }

    /// The 20-bit flow label as the low bits of a `u32`: low nibble of byte
    /// 1, then byte 2, then byte 3.
    pub open spec fn flow_label_spec(self) -> u32 {
        ((((self.version_class_flow[1] & 0x0f) as u32) << 16) | (
        (self.version_class_flow[2] as u32) << 8) | (self.version_class_flow[3] as u32)) as u32
    }

    /// The payload length in host order: the stored field with its two
    /// bytes swapped back.
    pub open spec fn payload_len_spec(self) -> u16 {
        (((self.payload_len & 0xff) << 8) | (self.payload_len >> 8)) as u16
    }
}

impl Default for IP6Header {
    /// A fresh header: version 6, traffic class 0, flow label 0, empty
    /// payload, no next header, hop limit 255, both addresses unspecified.
    fn default() -> (r: IP6Header)
        ensures
            r.version_class_flow@ =~= seq![0x60u8, 0u8, 0u8, 0u8],
            r.payload_len == 0,
            r.next_header == ip6_nh::NO_NEXT,
            r.hop_limit == 255,
            r.src_addr.is_unspecified_spec(),
            r.dst_addr.is_unspecified_spec(),
    {
        IP6Header {
            version_class_flow: [0x60, 0, 0, 0],
            payload_len: 0,
            next_header: ip6_nh::NO_NEXT,
            hop_limit: 255,
            src_addr: IPAddr::new(),
            dst_addr: IPAddr::new(),
        }
    }
}

impl IP6Header {
    /// A fresh header, as [`Default::default`].
    pub fn new() -> (r: IP6Header)
        ensures
            r.version_class_flow@ =~= seq![0x60u8, 0u8, 0u8, 0u8],
            r.payload_len == 0,
            r.next_header == ip6_nh::NO_NEXT,
            r.hop_limit == 255,
            r.src_addr.is_unspecified_spec(),
            r.dst_addr.is_unspecified_spec(),
            r.version_spec() == 6,
            r.traffic_class_spec() == 0,
            r.flow_label_spec() == 0,
            r.payload_len_spec() == 0,
    {
        let r = IP6Header::default();
        proof {
            assert(((0x60u8 & 0xf0) >> 4) == 6) by (bit_vector);
            assert((((0x60u8 & 0x0f) << 4) | ((0u8 & 0xf0) >> 4)) == 0) by (bit_vector);
            assert(((((0u8 & 0x0f) as u32) << 16) | ((0u8 as u32) << 8) | (0u8 as u32)) == 0)
                by (bit_vector);
            assert((((0u16 & 0xff) << 8) | (0u16 >> 8)) == 0) by (bit_vector);
        }
        r
    }

    /// Read a header out of the first 40 bytes of `buf`. Succeeds exactly
    /// when the buffer holds at least 40 bytes; trailing bytes are ignored
    /// and no semantic validation is performed.
    pub fn parse(buf: &[u8]) -> (r: Result<IP6Header, HeaderError>)
        ensures
            buf@.len() >= 40 ==> r == Ok::<IP6Header, HeaderError>(IP6Header::parse_spec(buf@)),
            buf@.len() < 40 ==> r == Err::<IP6Header, HeaderError>(HeaderError::BufferTooShort),
    {
        if buf.len() < 40 {
            return Err(HeaderError::BufferTooShort);
        }
        let version_class_flow: [u8; 4] = [buf[0], buf[1], buf[2], buf[3]];

        let payload_len: u16 = buf[4] as u16 | ((buf[5] as u16) << 8);
        let next_header: u8 = buf[6];
        let hop_limit: u8 = buf[7];

        let mut src_addr = IPAddr::new();
        let mut i: usize = 0;
        while i < 16
            invariant
                i <= 16,
                buf@.len() >= 40,
                forall|j: int| 0 <= j < i ==> src_addr@[j] == buf@[8 + j],
            decreases 16 - i,
        {
            let v: u8 = buf[8 + i];
            let ghost pre = src_addr;
            src_addr.0[i] = v;
            proof {
                assert(src_addr@ == pre@.update(i as int, v));
            }
            i = i + 1;
        }

        let mut dst_addr = IPAddr::new();
        let mut i: usize = 0;
        while i < 16
            invariant
                i <= 16,
                buf@.len() >= 40,
                forall|j: int| 0 <= j < i ==> dst_addr@[j] == buf@[24 + j],
            decreases 16 - i,
        {
            let v: u8 = buf[24 + i];
            let ghost pre = dst_addr;
            dst_addr.0[i] = v;
            proof {
                assert(dst_addr@ == pre@.update(i as int, v));
            }
            i = i + 1;
        }

        let h = IP6Header {
            version_class_flow,
            payload_len,
            next_header,
            hop_limit,
            src_addr,
            dst_addr,
        };
        proof {
            let p = IP6Header::parse_spec(buf@);
            assert(h.version_class_flow =~= p.version_class_flow);
            assert forall|k: int| 0 <= k < 16 implies h.src_addr.0[k] == p.src_addr.0[k] by {
                assert(src_addr@[k] == buf@[8 + k]);
                assert(h.src_addr.0[k] == src_addr@[k]);
                assert(p.src_addr.0[k] == buf@[8 + k]);
            }
            assert(h.src_addr.0 =~= p.src_addr.0);
            assert forall|k: int| 0 <= k < 16 implies h.dst_addr.0[k] == p.dst_addr.0[k] by {
                assert(dst_addr@[k] == buf@[24 + k]);
                assert(h.dst_addr.0[k] == dst_addr@[k]);
                assert(p.dst_addr.0[k] == buf@[24 + k]);
            }
            assert(h.dst_addr.0 =~= p.dst_addr.0);
            assert(h =~= p);
        }
        Ok(h)
    }

    /// Write the 40-byte wire image into the front of `buf`, leaving any
    /// bytes past the fixed header untouched. Succeeds exactly when the
    /// buffer holds at least 40 bytes; on failure the buffer is unchanged.
    pub fn serialize(&self, buf: &mut [u8]) -> (r: Result<(), HeaderError>)
        ensures
            old(buf)@.len() >= 40 ==> {
                &&& r == Ok::<(), HeaderError>(())
                &&& final(buf)@.len() == old(buf)@.len()
                &&& final(buf)@.subrange(0, 40) == self.wire_bytes()
                &&& forall|i: int| 40 <= i < old(buf)@.len() ==> final(buf)@[i] == old(buf)@[i]
            },
            old(buf)@.len() < 40 ==> {
                &&& r == Err::<(), HeaderError>(HeaderError::BufferTooShort)
                &&& final(buf)@ == old(buf)@
            },
    {
        if buf.len() < 40 {
            return Err(HeaderError::BufferTooShort);
        }

        buf[0] = self.version_class_flow[0];
        buf[1] = self.version_class_flow[1];
        buf[2] = self.version_class_flow[2];
        buf[3] = self.version_class_flow[3];
        buf[4] = (self.payload_len & 0xff) as u8;
        buf[5] = (self.payload_len >> 8) as u8;
        buf[6] = self.next_header;
        buf[7] = self.hop_limit;

        let mut i: usize = 0;
        while i < 16
            invariant
                i <= 16,
                buf@.len() == old(buf)@.len(),
                old(buf)@.len() >= 40,
                forall|j: int| 0 <= j < 8 + i ==> buf@[j] == self.wire_byte(j),
                forall|j: int| 8 + i <= j < buf@.len() ==> buf@[j] == old(buf)@[j],
            decreases 16 - i,
        {
            buf[8 + i] = self.src_addr.0[i];
            i = i + 1;
        }

        let mut i: usize = 0;
        while i < 16
            invariant
                i <= 16,
                buf@.len() == old(buf)@.len(),
                old(buf)@.len() >= 40,
                forall|j: int| 0 <= j < 24 + i ==> buf@[j] == self.wire_byte(j),
                forall|j: int| 24 + i <= j < buf@.len() ==> buf@[j] == old(buf)@[j],
            decreases 16 - i,
        {
            buf[24 + i] = self.dst_addr.0[i];
            i = i + 1;
        }

        proof {
            assert(buf@.subrange(0, 40) =~= self.wire_bytes());
        }
        Ok(())
    }

    /// The version field; 6 for every header this codec writes itself,
    /// but parsing accepts any value.
    pub fn get_version(&self) -> (r: u8)
        ensures
            r == self.version_spec(),
    {
        (self.version_class_flow[0] & 0xf0) >> 4
    }

    pub fn get_traffic_class(&self) -> (r: u8)
        ensures
            r == self.traffic_class_spec(),
    {
        ((self.version_class_flow[0] & 0x0f) << 4) | ((self.version_class_flow[1] & 0xf0) >> 4)
    }

    /// Set the 8-bit traffic class, leaving version and flow label alone.
    pub fn set_traffic_class(&mut self, new_tc: u8)
        ensures
            final(self).traffic_class_spec() == new_tc,
            final(self).version_spec() == old(self).version_spec(),
            final(self).flow_label_spec() == old(self).flow_label_spec(),
            final(self).payload_len == old(self).payload_len,
            final(self).next_header == old(self).next_header,
            final(self).hop_limit == old(self).hop_limit,
            final(self).src_addr == old(self).src_addr,
            final(self).dst_addr == old(self).dst_addr,
    {
        let b0 = self.version_class_flow[0];
        let b1 = self.version_class_flow[1];
        self.version_class_flow[0] = (b0 & 0xf0) | ((new_tc & 0xf0) >> 4);
        self.version_class_flow[1] = (b1 & 0x0f) | ((new_tc & 0x0f) << 4);
        proof {
            let nb0 = self.version_class_flow[0];
            let nb1 = self.version_class_flow[1];
            assert((((nb0 & 0x0f) << 4) | ((nb1 & 0xf0) >> 4)) == new_tc
                && ((nb0 & 0xf0) >> 4) == ((b0 & 0xf0) >> 4)
                && (nb1 & 0x0f) == (b1 & 0x0f)) by (bit_vector)
                requires
                    nb0 == (b0 & 0xf0) | ((new_tc & 0xf0) >> 4),
                    nb1 == (b1 & 0x0f) | ((new_tc & 0x0f) << 4),
            ;
        }
    }

    /// The DSCP bits still in their traffic-class position (shifted left
    /// by two).
    fn get_dscp_unshifted(&self) -> (r: u8)
        ensures
            r == (self.traffic_class_spec() & 0xfc) as u8,
    {
        self.get_traffic_class() & 0xfc
    }

    pub fn get_dscp(&self) -> (r: u8)
        ensures
            r == self.dscp_spec(),
    {
        self.get_dscp_unshifted() >> 2
    }

    /// Set the 6-bit DSCP without touching the ECN bits (or any other
    /// field). Values wider than 6 bits are truncated.
    pub fn set_dscp(&mut self, new_dscp: u8)
        ensures
            final(self).dscp_spec() == (new_dscp & 0x3f) as u8,
            new_dscp < 64 ==> final(self).dscp_spec() == new_dscp,
            final(self).ecn_spec() == old(self).ecn_spec(),
            final(self).version_spec() == old(self).version_spec(),
            final(self).flow_label_spec() == old(self).flow_label_spec(),
            final(self).payload_len == old(self).payload_len,
            final(self).next_header == old(self).next_header,
            final(self).hop_limit == old(self).hop_limit,
            final(self).src_addr == old(self).src_addr,
            final(self).dst_addr == old(self).dst_addr,
    {
        let ecn = self.get_ecn();
        self.set_traffic_class(ecn | ((new_dscp << 2) & 0xfc));
        proof {
            let t = old(self).traffic_class_spec();
            let d = new_dscp;
            assert(((((t & 0x03) | ((d << 2) & 0xfc)) & 0xfc) >> 2) == (d & 0x3f)
                && (((t & 0x03) | ((d << 2) & 0xfc)) & 0x03) == (t & 0x03)
                && (d < 64 ==> (d & 0x3f) == d)) by (bit_vector);
        }
    }

    pub fn get_ecn(&self) -> (r: u8)
        ensures
            r == self.ecn_spec(),
    {
        self.get_traffic_class() & 0x03
    }

    /// Set the 2-bit ECN without touching the DSCP bits (or any other
    /// field). Values wider than 2 bits are truncated.
    pub fn set_ecn(&mut self, new_ecn: u8)
        ensures
            final(self).ecn_spec() == (new_ecn & 0x03) as u8,
            new_ecn < 4 ==> final(self).ecn_spec() == new_ecn,
            final(self).dscp_spec() == old(self).dscp_spec(),
            final(self).version_spec() == old(self).version_spec(),
            final(self).flow_label_spec() == old(self).flow_label_spec(),
            final(self).payload_len == old(self).payload_len,
            final(self).next_header == old(self).next_header,
            final(self).hop_limit == old(self).hop_limit,
            final(self).src_addr == old(self).src_addr,
            final(self).dst_addr == old(self).dst_addr,
    {
        let dscp_unshifted = self.get_dscp_unshifted();
        self.set_traffic_class(dscp_unshifted | (new_ecn & 0x03));
        proof {
            let t = old(self).traffic_class_spec();
            let e = new_ecn;
            assert(((((t & 0xfc) | (e & 0x03)) & 0x03)) == (e & 0x03)
                && ((((t & 0xfc) | (e & 0x03)) & 0xfc) >> 2) == ((t & 0xfc) >> 2)
                && (e < 4 ==> (e & 0x03) == e)) by (bit_vector);
        }
    }

    /// The 20-bit flow label in the low bits of the result.
    pub fn get_flow_label(&self) -> (r: u32)
        ensures
            r == self.flow_label_spec(),
    {
        (((self.version_class_flow[1] & 0x0f) as u32) << 16)
            | ((self.version_class_flow[2] as u32) << 8)
            | (self.version_class_flow[3] as u32)
    }

    /// Set the 20-bit flow label from the low bits of `new_fl_val`,
    /// clearing only the flow-label bits of byte 1. Values wider than 20
    /// bits are truncated.
    pub fn set_flow_label(&mut self, new_fl_val: u32)
        ensures
            final(self).flow_label_spec() == (new_fl_val & 0xfffff) as u32,
            new_fl_val < 0x100000 ==> final(self).flow_label_spec() == new_fl_val,
            final(self).version_spec() == old(self).version_spec(),
            final(self).traffic_class_spec() == old(self).traffic_class_spec(),
            final(self).payload_len == old(self).payload_len,
            final(self).next_header == old(self).next_header,
            final(self).hop_limit == old(self).hop_limit,
            final(self).src_addr == old(self).src_addr,
            final(self).dst_addr == old(self).dst_addr,
    {
        let b1 = self.version_class_flow[1];
        self.version_class_flow[1] = (b1 & 0xf0) | (((new_fl_val >> 16) & 0x0f) as u8);
        self.version_class_flow[2] = (new_fl_val >> 8) as u8;
        self.version_class_flow[3] = new_fl_val as u8;
        proof {
            let b0 = self.version_class_flow[0];
            let nb1 = self.version_class_flow[1];
            let f = new_fl_val;
            assert(((((nb1 & 0x0f) as u32) << 16) | ((((f >> 8) as u8) as u32) << 8) | ((
            f as u8) as u32)) == (f & 0xfffff)
                && (nb1 & 0xf0) == (b1 & 0xf0)
                && (f < 0x100000 ==> (f & 0xfffff) == f)) by (bit_vector)
                requires
                    nb1 == (b1 & 0xf0) | (((f >> 16) & 0x0f) as u8),
            ;
            assert((((b0 & 0x0f) << 4) | ((nb1 & 0xf0) >> 4)) == (((b0 & 0x0f) << 4) | ((
            b1 & 0xf0) >> 4))) by (bit_vector)
                requires
                    (nb1 & 0xf0) == (b1 & 0xf0),
            ;
        }
    }

    /// The payload length in host order: the length in bytes of everything
    /// after the fixed header.
    pub fn get_payload_len(&self) -> (r: u16)
        ensures
            r == self.payload_len_spec(),
    {
        ((self.payload_len & 0xff) << 8) | (self.payload_len >> 8)
    }

    /// The announced length of the whole packet: the 40 fixed-header bytes
    /// plus the payload length. The caller keeps the payload length small
    /// enough for the sum to fit.
    pub fn get_total_len(&self) -> (r: u16)
        requires
            self.payload_len_spec() + 40 <= u16::MAX,
        ensures
            r == 40 + self.payload_len_spec(),
    {
        40 + self.get_payload_len()
    }

    /// Set the payload length from a host-order value; the stored field
    /// keeps the two wire bytes, so the bytes are swapped here.
    pub fn set_payload_len(&mut self, new_len: u16)
        ensures
            final(self).payload_len_spec() == new_len,
            final(self).payload_len == (((new_len & 0xff) << 8) | (new_len >> 8)) as u16,
            final(self).version_class_flow == old(self).version_class_flow,
            final(self).next_header == old(self).next_header,
            final(self).hop_limit == old(self).hop_limit,
            final(self).src_addr == old(self).src_addr,
            final(self).dst_addr == old(self).dst_addr,
    {
        self.payload_len = ((new_len & 0xff) << 8) | (new_len >> 8);
        proof {
            let s = self.payload_len;
            let v = new_len;
            assert(((((s & 0xff) << 8) | (s >> 8)) as u16) == v) by (bit_vector)
                requires
                    s == (((v & 0xff) << 8) | (v >> 8)) as u16,
            ;
        }
    }

    pub fn get_next_header(&self) -> (r: u8)
        ensures
            r == self.next_header,
    {
        self.next_header
    }

    pub fn set_next_header(&mut self, new_nh: u8)
        ensures
            final(self).next_header == new_nh,
            final(self).version_class_flow == old(self).version_class_flow,
            final(self).payload_len == old(self).payload_len,
            final(self).hop_limit == old(self).hop_limit,
            final(self).src_addr == old(self).src_addr,
            final(self).dst_addr == old(self).dst_addr,
    {
        self.next_header = new_nh;
    }

    pub fn get_hop_limit(&self) -> (r: u8)
        ensures
            r == self.hop_limit,
    {
        self.hop_limit
    }

    pub fn set_hop_limit(&mut self, new_hl: u8)
        ensures
            final(self).hop_limit == new_hl,
            final(self).version_class_flow == old(self).version_class_flow,
            final(self).payload_len == old(self).payload_len,
            final(self).next_header == old(self).next_header,
            final(self).src_addr == old(self).src_addr,
            final(self).dst_addr == old(self).dst_addr,
    {
        self.hop_limit = new_hl;
    }

    /// Round trip through parse then serialize: the header read from any
    /// buffer of at least 40 bytes has the buffer's first 40 bytes, bit for
    /// bit, as its wire image, so serializing it reproduces them exactly.
    pub proof fn lemma_parse_serialize_round_trip(b: Seq<u8>)
        requires
            b.len() >= 40,
        ensures
            IP6Header::parse_spec(b).wire_bytes() == b.subrange(0, 40),
    {
        let h = IP6Header::parse_spec(b);
        let b4 = b[4];
        let b5 = b[5];
        assert(((((b4 as u16) | ((b5 as u16) << 8)) as u16) & 0xff) as u8 == b4
            && ((((b4 as u16) | ((b5 as u16) << 8)) as u16) >> 8) as u8 == b5) by (bit_vector);
        assert forall|i: int| 0 <= i < 40 implies h.wire_bytes()[i] == b[i] by {
            if 8 <= i < 24 {
                assert(h.src_addr@[i - 8] == b[i]);
            } else if 24 <= i < 40 {
                assert(h.dst_addr@[i - 24] == b[i]);
            }
        }
        assert(h.wire_bytes() =~= b.subrange(0, 40));
    }

    /// Round trip through serialize then parse: reading a header back from
    /// its own wire image yields the very same header, so the two
    /// representations are lossless mirrors of each other.
    pub proof fn lemma_serialize_parse_round_trip(h: IP6Header)
        ensures
            IP6Header::parse_spec(h.wire_bytes()) == h,
    {
        let b = h.wire_bytes();
        let p = IP6Header::parse_spec(b);
        assert forall|k: int| 0 <= k < 4 implies p.version_class_flow[k]
            == h.version_class_flow[k] by {
            assert(b[k] == h.wire_byte(k));
        }
        assert(p.version_class_flow =~= h.version_class_flow);
        let v = h.payload_len;
        assert(((((v & 0xff) as u8) as u16) | ((((v >> 8) as u8) as u16) << 8)) as u16 == v)
            by (bit_vector);
        assert(p.payload_len == h.payload_len);
        assert forall|k: int| 0 <= k < 16 implies p.src_addr.0[k] == h.src_addr.0[k] by {
            assert(b[8 + k] == h.wire_byte(8 + k));
            assert(h.src_addr@[k] == h.src_addr.0[k]);
        }
        assert(p.src_addr.0 =~= h.src_addr.0);
        assert forall|k: int| 0 <= k < 16 implies p.dst_addr.0[k] == h.dst_addr.0[k] by {
            assert(b[24 + k] == h.wire_byte(24 + k));
            assert(h.dst_addr@[k] == h.dst_addr.0[k]);
        }
        assert(p.dst_addr.0 =~= h.dst_addr.0);
        assert(p =~= h);
    }
}

} // verus!
