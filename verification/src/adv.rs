//! Advertising payloads: the fixed advertising data (flags and the
//! 128-bit service identifier) and the scan response carrying the device
//! name.  Each is a sequence of length-type-value structures; a payload
//! must fit the 31-byte advertising window.

use vstd::prelude::*;

verus! {

/// Flags value advertised: general discoverable, classic not supported.
pub const ADV_FLAGS: u8 = 0x06;

/// Longest name a 31-byte scan response can carry beside its two header
/// bytes.
pub const MAX_ADV_NAME_LEN: usize = 29;

/// The service identifier, in the little-endian order it is advertised in.
pub open spec fn spec_service_uuid() -> Seq<u8> {
    seq![
        0xf1u8, 0x13, 0x5e, 0xa3, 0xc5, 0xfc, 0x00, 0x00, 0xd0, 0x42, 0x29, 0x49, 0x7e, 0x6a,
        0x7e, 0x6a,
    ]
}

/// The advertising data: a flags structure, then the 128-bit service
/// identifier list (structure type 0x07).
pub open spec fn spec_advertising_data() -> Seq<u8> {
    seq![0x02u8, 0x01, ADV_FLAGS, 0x11, 0x07] + spec_service_uuid()
}

/// The scan response: one complete-local-name structure (type 0x09).
pub open spec fn spec_scan_response(name: Seq<u8>) -> Seq<u8> {
    seq![(name.len() + 1) as u8, 0x09u8] + name
}

/// Build the advertising data.  It is constant and fits the window.
pub fn advertising_data() -> (r: Vec<u8>)
    ensures
        r@ == spec_advertising_data(),
        r@.len() <= 31,
{
    let mut r: Vec<u8> = Vec::new();
    r.push(0x02);
    r.push(0x01);
    r.push(ADV_FLAGS);
    r.push(0x11);
    r.push(0x07);
    r.push(0xf1);
    r.push(0x13);
    r.push(0x5e);
    r.push(0xa3);
    r.push(0xc5);
    r.push(0xfc);
    r.push(0x00);
    r.push(0x00);
    r.push(0xd0);
    r.push(0x42);
    r.push(0x29);
    r.push(0x49);
    r.push(0x7e);
    r.push(0x6a);
    r.push(0x7e);
    r.push(0x6a);
    proof {
        assert(r@ =~= spec_advertising_data());
    }
    r
}

/// Build the scan response for `name`; a name longer than
/// `MAX_ADV_NAME_LEN` bytes does not fit and yields nothing.
pub fn scan_response_data(name: &Vec<u8>) -> (r: Option<Vec<u8>>)
    ensures
        (r is Some) == (name@.len() <= MAX_ADV_NAME_LEN),
        r matches Some(d) ==> d@ == spec_scan_response(name@) && d@.len() <= 31,
{
    if name.len() > MAX_ADV_NAME_LEN {
        return None;
    }
    let mut d: Vec<u8> = Vec::new();
    d.push((name.len() + 1) as u8);
    d.push(0x09);
    let mut i: usize = 0;
    while i < name.len()
        invariant
            i <= name@.len() <= 29,
            d@.len() == 2 + i,
            d@[0] == (name@.len() + 1) as u8,
            d@[1] == 0x09,
            forall|j: int| 0 <= j < i ==> d@[2 + j] == name@[j],
        decreases name@.len() - i,
    {
        d.push(name[i]);
        i += 1;
    }
    proof {
        assert(d@ =~= spec_scan_response(name@));
    }
    Some(d)
}

} // verus!
