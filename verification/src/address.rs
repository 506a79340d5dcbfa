//! IPv6 address model: a 128-bit address held as 16 raw bytes, plus the
//! two-variant link-layer (MAC) address used by neighbouring compression
//! layers. Classification predicates and prefix mutation work directly on
//! the bytes, in network order.

use vstd::prelude::*;

verus! {

/// A link-layer address: either a compressed 16-bit short address or an
/// extended 8-byte long address.
#[derive(Copy, Clone, PartialEq)]
pub enum MacAddr {
    ShortAddr(u16),
    LongAddr([u8; 8]),
}

/// A 128-bit IPv6 address, 16 bytes in network byte order. All-zero is a
/// valid value (the unspecified address); construction performs no
/// validation.
#[derive(Copy, Clone, Debug)]
#[verifier::ext_equal]
pub struct IPAddr(pub [u8; 16]);

impl View for IPAddr {
    type V = Seq<u8>;

    open spec fn view(&self) -> Seq<u8> {
        self.0@
    }
}

impl IPAddr {
    /// True iff every byte of the address is zero.
    pub open spec fn is_unspecified_spec(self) -> bool {
        forall|i: int| 0 <= i < 16 ==> self@[i] == 0
    }

    /// True iff the address lies in `fe80::/64` with the reserved middle
    /// bits zero: byte 0 is `0xfe`, byte 1 is `0x80`, bytes 2..8 are zero.
    pub open spec fn is_unicast_link_local_spec(self) -> bool {
        &&& self@[0] == 0xfe
        &&& self@[1] == 0x80
        &&& forall|i: int| 2 <= i < 8 ==> self@[i] == 0
    }

    /// True iff the first byte is `0xff`.
    pub open spec fn is_multicast_spec(self) -> bool {
        self@[0] == 0xff
    }

    /// The unspecified (all-zero) address.
    pub fn new() -> (r: IPAddr)
        ensures
            r@ =~= Seq::new(16, |i: int| 0u8),
            r.is_unspecified_spec(),
    {
        IPAddr([0; 16])
    }

    /// The mask selecting the `rem` most significant bits of a byte,
    /// for `1 <= rem < 8`.
    pub open spec fn prefix_mask(rem: u8) -> u8 {
        (0xffu8 << ((8 - rem) as u8)) as u8
    }

    /// The boundary byte after a prefix copy: the top `rem` bits come from
    /// `prefix_byte`, the remaining low bits keep `old_byte`'s value.
    pub open spec fn merge_prefix_byte(old_byte: u8, prefix_byte: u8, rem: u8) -> u8 {
        ((old_byte & !IPAddr::prefix_mask(rem)) | (prefix_byte & IPAddr::prefix_mask(rem))) as u8
    }

    pub fn is_unspecified(&self) -> (r: bool)
        ensures
            r == self.is_unspecified_spec(),
    {
        let mut i: usize = 0;
        while i < 16
            invariant
                i <= 16,
                forall|j: int| 0 <= j < i ==> self@[j] == 0,
            decreases 16 - i,
        {
            if self.0[i] != 0 {
                assert(self@[i as int] != 0);
                return false;
            }
            i = i + 1;
        }
        true
    }

    pub fn is_unicast_link_local(&self) -> (r: bool)
        ensures
            r == self.is_unicast_link_local_spec(),
    {
        let b1 = self.0[1];
        proof {
            assert((((b1 & 0xc0) == 0x80) && ((b1 & 0x3f) == 0)) <==> b1 == 0x80) by (bit_vector);
        }
        if !(self.0[0] == 0xfe && (b1 & 0xc0) == 0x80 && (b1 & 0x3f) == 0) {
            return false;
        }
        let mut i: usize = 2;
        while i < 8
            invariant
                2 <= i <= 8,
                self@[0] == 0xfe,
                self@[1] == 0x80,
                forall|j: int| 2 <= j < i ==> self@[j] == 0,
            decreases 8 - i,
        {
            if self.0[i] != 0 {
                assert(self@[i as int] != 0);
                return false;
            }
            i = i + 1;
        }
        true
    }

    /// Overwrite bytes 0..8 with the `fe80::/64` link-local prefix; the
    /// interface identifier in bytes 8..16 is left untouched.
    pub fn set_unicast_link_local(&mut self)
        ensures
            final(self)@[0] == 0xfe,
            final(self)@[1] == 0x80,
            forall|i: int| 2 <= i < 8 ==> final(self)@[i] == 0,
            forall|i: int| 8 <= i < 16 ==> final(self)@[i] == old(self)@[i],
            final(self).is_unicast_link_local_spec(),
    {
        self.0[0] = 0xfe;
        self.0[1] = 0x80;
        let mut i: usize = 2;
        while i < 8
            invariant
                2 <= i <= 8,
                self@[0] == 0xfe,
                self@[1] == 0x80,
                forall|j: int| 2 <= j < i ==> self@[j] == 0,
                forall|j: int| i <= j < 16 ==> self@[j] == old(self)@[j],
            decreases 8 - i,
        {
            self.0[i] = 0;
            i = i + 1;
        }
    }

    /// Copy the first `prefix_len` bits of `prefix` into the address,
    /// left-aligned. Full bytes are copied verbatim; in a partly covered
    /// boundary byte only the top `prefix_len % 8` bits are replaced, and
    /// every byte past the prefix keeps its old value.
    pub fn set_prefix(&mut self, prefix: &[u8], prefix_len: u8)
        requires
            prefix_len <= 128,
            prefix@.len() >= (prefix_len as int + 7) / 8,
        ensures
            forall|i: int| 0 <= i < prefix_len as int / 8 ==> final(self)@[i] == prefix@[i],
            prefix_len % 8 != 0 ==> final(self)@[prefix_len as int / 8]
                == IPAddr::merge_prefix_byte(
                    old(self)@[prefix_len as int / 8],
                    prefix@[prefix_len as int / 8],
                    prefix_len % 8,
                ),
            forall|i: int| (prefix_len as int + 7) / 8 <= i < 16
                ==> final(self)@[i] == old(self)@[i],
    {
        let full_bytes: usize = (prefix_len / 8) as usize;
        let remaining: u8 = prefix_len % 8;

        let mut i: usize = 0;
        while i < full_bytes
            invariant
                i <= full_bytes,
                full_bytes == prefix_len as int / 8,
                full_bytes <= 16,
                prefix@.len() >= full_bytes,
                forall|j: int| 0 <= j < i ==> self@[j] == prefix@[j],
                forall|j: int| i <= j < 16 ==> self@[j] == old(self)@[j],
            decreases full_bytes - i,
        {
            self.0[i] = prefix[i];
            i = i + 1;
        }
        if remaining != 0 {
            let mask: u8 = 0xffu8 << (8 - remaining);
            self.0[full_bytes] = (self.0[full_bytes] & !mask) | (prefix[full_bytes] & mask);
        }
    }

    pub fn is_multicast(&self) -> (r: bool)
        ensures
            r == self.is_multicast_spec(),
    {
        self.0[0] == 0xff
    }
}

} // verus!
