//! Endpoint addresses

use vstd::prelude::*;

verus! {

/// Direction of the data flow, seen from the host
#[derive(Clone, Copy, PartialEq, Eq, Structural)]
pub enum Direction {
    /// Host to device
    Out,
    /// Device to host
    In,
}

impl Direction {
    /// The direction bit of an endpoint address
    pub open spec fn spec_bit(self) -> u8 {
        match self {
            Direction::Out => 0,
            Direction::In => 1,
        }
    }

    /// Returns the direction bit of an endpoint address
    #[verifier::when_used_as_spec(spec_bit)]
    pub fn bit(self) -> (r: u8)
        ensures
            r == self.spec_bit(),
    {
        match self {
            Direction::Out => 0,
            Direction::In => 1,
        }
    }
}

/// Endpoint address: an endpoint number in `0..16` and a direction
#[derive(Clone, Copy)]
pub struct Endpoint {
    direction: Direction,
    number: u8,
}

impl Endpoint {
    #[verifier::type_invariant]
    spec fn inv(self) -> bool {
        self.number < 16
    }

    /// The direction of this endpoint
    pub closed spec fn spec_direction(self) -> Direction {
        self.direction
    }

    /// The number of this endpoint
    pub closed spec fn spec_number(self) -> u8 {
        self.number
    }

    /// The address byte: the number in bits 0 to 3, the direction in bit 7
    pub open spec fn spec_byte(self) -> u8 {
        (self.spec_number() + 128 * self.spec_direction().spec_bit()) as u8
    }

    /// Makes the address of endpoint `number` in `direction`, or returns `None` when `number` is
    /// not below 16
    pub fn new(direction: Direction, number: u8) -> (r: Option<Endpoint>)
        ensures
            r is None <==> number >= 16,
            r matches Some(e) ==> e.spec_direction() == direction && e.spec_number() == number,
    {
        if number < 16 {
            Some(Endpoint { direction, number })
        } else {
            None
        }
    }

    /// Returns the direction of this endpoint
    pub fn direction(&self) -> (r: Direction)
        ensures
            r == self.spec_direction(),
    {
        self.direction
    }

    /// Returns the number of this endpoint
    pub fn number(&self) -> (r: u8)
        ensures
            r == self.spec_number(),
            r < 16,
    {
        proof {
            use_type_invariant(self);
        }
        self.number
    }

    /// Returns the address byte
    pub fn byte(&self) -> (r: u8)
        ensures
            r == self.spec_byte(),
            r & 0x0f == self.spec_number(),
            r >> 7 == self.spec_direction().spec_bit(),
            r & 0x70 == 0,
    {
        proof {
            use_type_invariant(self);
        }
        let n = self.number;
        let d = self.direction.bit();
        let r = n | (d << 7);
        assert(r == (n + 128 * d) as u8 && r & 0x0f == n && r >> 7 == d && r & 0x70 == 0)
            by (bit_vector)
            requires
                n < 16,
                d < 2,
                r == n | (d << 7),
        ;
        r
    }
}

} // verus!
