//! Descriptor types

use vstd::prelude::*;

verus! {

/// Descriptor type, as carried in the `bDescriptorType` field
///
/// See table 9-5 of (USB2)
#[derive(Clone, Copy, PartialEq, Eq, Structural)]
pub enum Type {
    /// Device descriptor
    Device,
    /// Configuration descriptor
    Configuration,
    /// String descriptor
    String,
    /// Interface descriptor
    Interface,
    /// Endpoint descriptor
    Endpoint,
    /// Device qualifier descriptor
    DeviceQualifier,
    /// Other speed configuration descriptor
    OtherSpeedConfiguration,
    /// Interface power descriptor
    InterfacePower,
}

impl Type {
    /// The wire code of this descriptor type
    pub open spec fn spec_code(self) -> u8 {
        match self {
            Type::Device => 1,
            Type::Configuration => 2,
            Type::String => 3,
            Type::Interface => 4,
            Type::Endpoint => 5,
            Type::DeviceQualifier => 6,
            Type::OtherSpeedConfiguration => 7,
            Type::InterfacePower => 8,
        }
    }

    /// Returns the wire code of this descriptor type
    #[verifier::when_used_as_spec(spec_code)]
    pub fn code(self) -> (r: u8)
        ensures
            r == self.spec_code(),
    {
        match self {
            Type::Device => 1,
            Type::Configuration => 2,
            Type::String => 3,
            Type::Interface => 4,
            Type::Endpoint => 5,
            Type::DeviceQualifier => 6,
            Type::OtherSpeedConfiguration => 7,
            Type::InterfacePower => 8,
        }
    }
}

} // verus!
