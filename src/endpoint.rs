//! Endpoint descriptors

use vstd::prelude::*;

use crate::{desc, Endpoint};

verus! {

/// Endpoint descriptor
///
/// See section 9.6.6 of (USB2)
#[allow(non_snake_case)]
#[derive(Clone, Copy)]
pub struct Descriptor {
    /// Endpoint address
    pub bEndpointAddress: Endpoint,
    /// Attributes
    pub bmAttributes: bmAttributes,
    /// Maximum packet size
    pub wMaxPacketSize: wMaxPacketSize,
    /// Polling interval
    pub bInterval: u8,
}

/// Endpoint attributes
#[allow(non_camel_case_types)]
#[derive(Clone, Copy)]
pub enum bmAttributes {
    /// Bulk endpoint
    Bulk,
    /// Control endpoint
    Control,
    /// Interrupt endpoint
    Interrupt,
    /// Isochronous endpoint
    Isochronous {
        /// Synchronization type
        synchronization_type: SynchronizationType,
        /// Usage type
        usage_type: UsageType,
    },
}

/// Synchronization type
#[derive(Clone, Copy, PartialEq, Eq, Structural)]
pub enum SynchronizationType {
    /// No synchronization
    NoSynchronization,
    /// Asynchronous
    Asynchronous,
    /// Adaptive
    Adaptive,
    /// Synchronous
    Synchronous,
}

impl SynchronizationType {
    /// The two-bit wire code of this synchronization type
    pub open spec fn spec_code(self) -> u8 {
        match self {
            SynchronizationType::NoSynchronization => 0b00,
            SynchronizationType::Asynchronous => 0b01,
            SynchronizationType::Adaptive => 0b10,
            SynchronizationType::Synchronous => 0b11,
        }
    }

    /// Returns the two-bit wire code of this synchronization type
    #[verifier::when_used_as_spec(spec_code)]
    pub fn code(self) -> (r: u8)
        ensures
            r == self.spec_code(),
    {
        match self {
            SynchronizationType::NoSynchronization => 0b00,
            SynchronizationType::Asynchronous => 0b01,
            SynchronizationType::Adaptive => 0b10,
            SynchronizationType::Synchronous => 0b11,
        }
    }
}

/// Usage type
#[derive(Clone, Copy, PartialEq, Eq, Structural)]
pub enum UsageType {
    /// Data endpoint
    DataEndpoint,
    /// Feedback endpoint
    FeedbackEndpoint,
    /// Implicit feedback data endpoint
    ImplicitFeedbackDataEndpoint,
}

impl UsageType {
    /// The two-bit wire code of this usage type
    pub open spec fn spec_code(self) -> u8 {
        match self {
            UsageType::DataEndpoint => 0b00,
            UsageType::FeedbackEndpoint => 0b01,
            UsageType::ImplicitFeedbackDataEndpoint => 0b10,
        }
    }

    /// Returns the two-bit wire code of this usage type
    #[verifier::when_used_as_spec(spec_code)]
    pub fn code(self) -> (r: u8)
        ensures
            r == self.spec_code(),
    {
        match self {
            UsageType::DataEndpoint => 0b00,
            UsageType::FeedbackEndpoint => 0b01,
            UsageType::ImplicitFeedbackDataEndpoint => 0b10,
        }
    }
}

impl bmAttributes {
    /// The two-bit transfer type code: control 0, isochronous 1, bulk 2, interrupt 3
    pub open spec fn spec_transfer_type(self) -> u8 {
        match self {
            bmAttributes::Bulk => 0b10,
            bmAttributes::Control => 0b00,
            bmAttributes::Interrupt => 0b11,
            bmAttributes::Isochronous { .. } => 0b01,
        }
    }

    /// The attributes byte: the transfer type in bits 0 and 1 and, for an isochronous endpoint,
    /// the synchronization type in bits 2 and 3 and the usage type in bits 4 and 5
    pub open spec fn spec_byte(self) -> u8 {
        match self {
            bmAttributes::Isochronous { synchronization_type, usage_type } => (1 + 4
                * synchronization_type.spec_code() + 16 * usage_type.spec_code()) as u8,
            _ => self.spec_transfer_type(),
        }
    }

    /// Returns the attributes byte
    pub fn byte(&self) -> (r: u8)
        ensures
            r == self.spec_byte(),
            r & 0b11 == self.spec_transfer_type(),
            self matches bmAttributes::Isochronous { synchronization_type, usage_type } ==> {
                &&& (r >> 2) & 0b11 == synchronization_type.spec_code()
                &&& (r >> 4) & 0b11 == usage_type.spec_code()
                &&& r >> 6 == 0
            },
            !(self is Isochronous) ==> r >> 2 == 0,
    {
        match self {
            bmAttributes::Bulk => {
                assert(0b10u8 & 0b11 == 0b10 && 0b10u8 >> 2 == 0) by (bit_vector);
                0b10
            },
            bmAttributes::Control => {
                assert(0u8 & 0b11 == 0 && 0u8 >> 2 == 0) by (bit_vector);
                0b00
            },
            bmAttributes::Interrupt => {
                assert(0b11u8 & 0b11 == 0b11 && 0b11u8 >> 2 == 0) by (bit_vector);
                0b11
            },
            bmAttributes::Isochronous { synchronization_type, usage_type } => {
                let s = synchronization_type.code();
                let u = usage_type.code();
                let r = 0b01u8 | s << 2 | u << 4;
                assert(r == (1 + 4 * s + 16 * u) as u8 && r & 0b11 == 1 && (r >> 2) & 0b11 == s
                    && (r >> 4) & 0b11 == u && r >> 6 == 0) by (bit_vector)
                    requires
                        s < 4,
                        u < 3,
                        r == 0b01u8 | s << 2 | u << 4,
                ;
                r
            },
        }
    }
}

/// Maximum packet size
#[allow(non_camel_case_types)]
#[derive(Clone, Copy)]
pub enum wMaxPacketSize {
    /// Bulk or control endpoint
    BulkControl {
        /// Must be less than `1 << 11`
        size: u16,
    },
    /// Isochronous or interrupt endpoint
    IsochronousInterrupt {
        /// Must be less than `1 << 11`
        size: u16,
        /// Transactions per microframe
        transactions_per_microframe: Transactions,
    },
}

/// Transactions per microframe
#[derive(Clone, Copy, PartialEq, Eq, Structural)]
pub enum Transactions {
    /// 1 transaction per microframe
    _1,
    /// 2 transactions per microframe
    _2,
    /// 3 transactions per microframe
    _3,
}

impl Transactions {
    /// The two-bit wire code: one less than the number of transactions
    pub open spec fn spec_code(self) -> u16 {
        match self {
            Transactions::_1 => 0b00,
            Transactions::_2 => 0b01,
            Transactions::_3 => 0b10,
        }
    }

    /// Returns the two-bit wire code
    #[verifier::when_used_as_spec(spec_code)]
    pub fn code(self) -> (r: u16)
        ensures
            r == self.spec_code(),
    {
        match self {
            Transactions::_1 => 0b00,
            Transactions::_2 => 0b01,
            Transactions::_3 => 0b10,
        }
    }
}

/// The bits of the packet-size word that hold the size
pub const SIZE_MASK: u16 = 0x7ff;

impl wMaxPacketSize {
    /// The size as it is carried on the wire: its low 11 bits
    pub open spec fn spec_size(self) -> u16 {
        match self {
            wMaxPacketSize::BulkControl { size } => (size % 2048) as u16,
            wMaxPacketSize::IsochronousInterrupt { size, .. } => (size % 2048) as u16,
        }
    }

    /// The packet-size word: the size in bits 0 to 10 and, for an isochronous or interrupt
    /// endpoint, the transactions per microframe in bits 11 and 12
    pub open spec fn spec_word(self) -> u16 {
        match self {
            wMaxPacketSize::BulkControl { .. } => self.spec_size(),
            wMaxPacketSize::IsochronousInterrupt { transactions_per_microframe, .. } => (
            self.spec_size() + 2048 * transactions_per_microframe.spec_code()) as u16,
        }
    }

    /// Returns the packet-size word; a size of 2048 or more is cut to its low 11 bits
    pub fn word(&self) -> (r: u16)
        ensures
            r == self.spec_word(),
            r & 0x7ff == self.spec_size(),
            self matches wMaxPacketSize::BulkControl { size } ==> r == size & 0x7ff,
            self matches wMaxPacketSize::IsochronousInterrupt { size, transactions_per_microframe }
                ==> r == (size & 0x7ff) | (transactions_per_microframe.spec_code() << 11),
            self matches wMaxPacketSize::IsochronousInterrupt { transactions_per_microframe, .. }
                ==> r >> 11 == transactions_per_microframe.spec_code(),
            self is BulkControl ==> r >> 11 == 0,
    {
        match self {
            wMaxPacketSize::BulkControl { size } => {
                let size = *size;
                let r = size & SIZE_MASK;
                assert(r == size % 2048 && r & 0x7ff == r && r >> 11 == 0) by (bit_vector)
                    requires
                        r == size & 0x7ff,
                ;
                r
            },
            wMaxPacketSize::IsochronousInterrupt { size, transactions_per_microframe } => {
                let size = *size;
                let t = transactions_per_microframe.code();
                let r = (size & SIZE_MASK) | (t << 11);
                assert(r == size % 2048 + 2048 * t && r & 0x7ff == size % 2048 && r >> 11 == t)
                    by (bit_vector)
                    requires
                        t < 3,
                        r == (size & 0x7ff) | (t << 11),
                ;
                r
            },
        }
    }
}

impl Descriptor {
    /// The size of this descriptor on the wire
    pub const SIZE: u8 = 7;

    /// The wire representation of this descriptor
    pub open spec fn spec_bytes(self) -> Seq<u8> {
        seq![
            7u8,
            desc::Type::Endpoint.spec_code(),
            self.bEndpointAddress.spec_byte(),
            self.bmAttributes.spec_byte(),
            (self.wMaxPacketSize.spec_word() % 256) as u8,
            (self.wMaxPacketSize.spec_word() / 256) as u8,
            self.bInterval,
        ]
    }

    /// Returns the wire representation of this descriptor
    pub fn bytes(&self) -> (r: [u8; 7])
        ensures
            r@ == self.spec_bytes(),
            r[0] == Self::SIZE,
            r[1] == 5,
            r[2] == self.bEndpointAddress.spec_byte(),
            r[3] == self.bmAttributes.spec_byte(),
            r[4] as int + 256 * r[5] as int == self.wMaxPacketSize.spec_word() as int,
            r[6] == self.bInterval,
    {
        let word = self.wMaxPacketSize.word();
        proof {
            assert(#[verifier::truncate] (word as u8) == word % 256 && #[verifier::truncate] ((word
                >> 8) as u8) == word / 256) by (bit_vector);
        }
        let r = [
            Self::SIZE,
            desc::Type::Endpoint.code(),
            self.bEndpointAddress.byte(),
            self.bmAttributes.byte(),
            #[verifier::truncate] (word as u8),
            #[verifier::truncate] ((word >> 8) as u8),
            self.bInterval,
        ];
        assert(r@ =~= self.spec_bytes());
        r
    }
}

} // verus!
