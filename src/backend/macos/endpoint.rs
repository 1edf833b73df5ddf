//! Endpoint address helpers.
//!
//! An endpoint address holds the endpoint number in its low seven bits and the
//! direction in its high bit (set for IN, device-to-host).

use vstd::prelude::*;

verus! {

/// Annotates that an endpoint number is used as an OUT address; the address is the number.
pub fn address_for_out_endpoint(number: u8) -> (r: u8)
    ensures
        r == number,
{
    number
}

/// Converts an IN endpoint number to an endpoint address by setting the direction bit.
pub fn address_for_in_endpoint(number: u8) -> (r: u8)
    ensures
        r == (number | 0x80),
        r & 0x7F == number & 0x7F,
        r & 0x80 != 0,
{
    let r = number | 0x80;
    assert(r & 0x7F == number & 0x7F && r & 0x80 != 0) by (bit_vector)
        requires
            r == number | 0x80,
    ;
    r
}

/// Extracts the endpoint number from an endpoint address.
pub fn number_for_endpoint_address(address: u8) -> (r: u8)
    ensures
        r == address & 0x7F,
        r < 128,
{
    let r = address & 0x7F;
    assert(r < 128) by (bit_vector)
        requires
            r == address & 0x7F,
    ;
    r
}

/// Whether an endpoint address refers to an IN endpoint.
pub fn endpoint_address_is_in(address: u8) -> (r: bool)
    ensures
        r == (address & 0x80 != 0),
        r == (address >= 128),
{
    let r = (address & 0x80) != 0;
    assert(r == (address >= 128)) by (bit_vector)
        requires
            r == (address & 0x80 != 0),
    ;
    r
}

} // verus!
