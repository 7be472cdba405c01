//! Configuration descriptors

use vstd::prelude::*;

use crate::desc;
use crate::num::NonZeroU8;

verus! {

/// Configuration Descriptor
///
/// See section 9.6.3 of (USB2)
#[allow(non_snake_case)]
#[derive(Clone, Copy)]
pub struct Descriptor {
    /// The total length of this configuration descriptor plus the descriptors (interface, endpoint,
    /// etc.) below it
    pub wTotalLength: u16,
    /// Number of interfaces associated to this configuration
    pub bNumInterfaces: NonZeroU8,
    /// Configuration value
    pub bConfigurationValue: NonZeroU8,
    /// Configuration string index
    pub iConfiguration: Option<NonZeroU8>,
    /// Attributes
    pub bmAttributes: bmAttributes,
    /// Maximum power (1 ULP = 2 mA)
    pub bMaxPower: u8,
}

/// The wire value of an optional string index: the index itself, or 0 when there is none
pub open spec fn string_index(i: Option<NonZeroU8>) -> u8 {
    match i {
        Some(n) => n@,
        None => 0,
    }
}

impl Descriptor {
    /// The size of this descriptor on the wire
    pub const SIZE: u8 = 9;

    /// The wire representation of this descriptor
    pub open spec fn spec_bytes(self) -> Seq<u8> {
        seq![
            9u8,
            desc::Type::Configuration.spec_code(),
            (self.wTotalLength % 256) as u8,
            (self.wTotalLength / 256) as u8,
            self.bNumInterfaces@,
            self.bConfigurationValue@,
            string_index(self.iConfiguration),
            self.bmAttributes.spec_byte(),
            self.bMaxPower,
        ]
    }

    /// Returns the wire representation of this descriptor
    pub fn bytes(&self) -> (r: [u8; 9])
        ensures
            r@ == self.spec_bytes(),
            r[0] == Self::SIZE,
            r[1] == 2,
            r[2] as int + 256 * r[3] as int == self.wTotalLength as int,
            r[4] == self.bNumInterfaces@ && r[4] != 0,
            r[5] == self.bConfigurationValue@ && r[5] != 0,
            r[6] == string_index(self.iConfiguration),
            self.iConfiguration is None ==> r[6] == 0,
            self.iConfiguration matches Some(n) ==> r[6] == n@ && r[6] != 0,
            r[7] & 0x80 == 0x80,
            (r[7] & 0x40 == 0x40) == self.bmAttributes.self_powered,
            (r[7] & 0x20 == 0x20) == self.bmAttributes.remote_wakeup,
            r[7] & 0x1f == 0,
            r[8] == self.bMaxPower,
    {
        let total = self.wTotalLength;
        let attributes = (1u8 << 7) | if self.bmAttributes.self_powered {
            1u8 << 6
        } else {
            0u8
        } | if self.bmAttributes.remote_wakeup {
            1u8 << 5
        } else {
            0u8
        };
        proof {
            self.bmAttributes.lemma_byte_bits();
            assert(#[verifier::truncate] (total as u8) == total % 256 && #[verifier::truncate] ((total >> 8) as u8) == total / 256)
                by (bit_vector);
            let sp = self.bmAttributes.self_powered;
            let rw = self.bmAttributes.remote_wakeup;
            assert(attributes == (0x80u8 | if sp { 0x40u8 } else { 0u8 } | if rw { 0x20u8 } else { 0u8 }))
                by (bit_vector)
                requires
                    attributes == ((1u8 << 7) | if sp { 1u8 << 6 } else { 0u8 } | if rw { 1u8 << 5 } else { 0u8 }),
            ;
        }
        let string = match self.iConfiguration {
            Some(nz) => nz.get(),
            None => 0,
        };
        let r = [
            Self::SIZE,
            desc::Type::Configuration.code(),
            #[verifier::truncate] (total as u8),
            #[verifier::truncate] ((total >> 8) as u8),
            self.bNumInterfaces.get(),
            self.bConfigurationValue.get(),
            string,
            attributes,
            self.bMaxPower,
        ];
        assert(r@ =~= self.spec_bytes());
        r
    }
}

/// Attributes
#[allow(non_camel_case_types)]
#[derive(Clone, Copy)]
pub struct bmAttributes {
    /// Self-powered?
    pub self_powered: bool,
    /// Remote wakeup
    pub remote_wakeup: bool,
}

impl bmAttributes {
    /// The attributes byte: bit 7 is reserved and always set, bit 6 is self-powered, bit 5 is
    /// remote wakeup
    pub open spec fn spec_byte(self) -> u8 {
        (0x80 + (if self.self_powered { 0x40int } else { 0 }) + (if self.remote_wakeup {
            0x20int
        } else {
            0
        })) as u8
    }

    /// The reserved bit of the attributes byte is always set, each flag sits in a bit of its own,
    /// and the low five bits are clear.
    pub proof fn lemma_byte_bits(self)
        ensures
            self.spec_byte() == (0x80u8 | if self.self_powered { 0x40u8 } else { 0u8 } | if self.remote_wakeup { 0x20u8 } else { 0u8 }),
            self.spec_byte() & 0x80 == 0x80,
            (self.spec_byte() & 0x40 == 0x40) == self.self_powered,
            (self.spec_byte() & 0x20 == 0x20) == self.remote_wakeup,
            self.spec_byte() & 0x1f == 0,
    {
        let b = self.spec_byte();
        let sp = self.self_powered;
        let rw = self.remote_wakeup;
        assert(b == (0x80u8 | if sp { 0x40u8 } else { 0u8 } | if rw { 0x20u8 } else { 0u8 })) by (bit_vector)
            requires
                b == (0x80 + (if sp { 0x40int } else { 0 }) + (if rw { 0x20int } else { 0 })) as u8,
        ;
        assert(b & 0x80 == 0x80 && ((b & 0x40 == 0x40) == sp) && ((b & 0x20 == 0x20) == rw) && b & 0x1f == 0) by (bit_vector)
            requires
                b == (0x80 + (if sp { 0x40int } else { 0 }) + (if rw { 0x20int } else { 0 })) as u8,
        ;
    }
}

} // verus!
