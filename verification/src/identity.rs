//! Device identities: the (vendor id, product id) pair that names a USB
//! device model, and its canonical platform hardware-identifier string.

use vstd::prelude::*;

verus! {

/// Names a USB device model.  Two physical units of the same model share
/// an identity; the pair is the key of the trust registry.
#[derive(Clone, Copy, PartialEq, Eq, Structural, Debug, Hash)]
pub struct DeviceIdentity {
    pub vendor_id: u16,
    pub product_id: u16,
}

impl DeviceIdentity {
    pub fn new(vendor_id: u16, product_id: u16) -> (r: DeviceIdentity)
        ensures
            r.vendor_id == vendor_id,
            r.product_id == product_id,
    {
        DeviceIdentity { vendor_id, product_id }
    }
}

/// The character for one hexadecimal digit, upper case.
pub open spec fn hex_digit_char(d: int) -> char {
    if d == 0 {
        '0'
    } else if d == 1 {
        '1'
    } else if d == 2 {
        '2'
    } else if d == 3 {
        '3'
    } else if d == 4 {
        '4'
    } else if d == 5 {
        '5'
    } else if d == 6 {
        '6'
    } else if d == 7 {
        '7'
    } else if d == 8 {
        '8'
    } else if d == 9 {
        '9'
    } else if d == 10 {
        'A'
    } else if d == 11 {
        'B'
    } else if d == 12 {
        'C'
    } else if d == 13 {
        'D'
    } else if d == 14 {
        'E'
    } else {
        'F'
    }
}

/// A 16-bit value as four upper-case hexadecimal digits, zero-padded.
pub open spec fn hex4(v: int) -> Seq<char> {
    seq![
        hex_digit_char(v / 0x1000 % 16),
        hex_digit_char(v / 0x100 % 16),
        hex_digit_char(v / 0x10 % 16),
        hex_digit_char(v % 16),
    ]
}

/// The canonical platform hardware identifier of an identity.
pub open spec fn hardware_id_spec(d: DeviceIdentity) -> Seq<char> {
    "USB\\VID_"@ + hex4(d.vendor_id as int) + "&PID_"@ + hex4(d.product_id as int)
}

/// One hexadecimal digit as a string.
pub(crate) fn hex_digit_str(d: u16) -> (r: &'static str)
    requires
        d < 16,
    ensures
        r@.len() == 1,
        r@[0] == hex_digit_char(d as int),
{
    proof {
        reveal_strlit("0");
        reveal_strlit("1");
        reveal_strlit("2");
        reveal_strlit("3");
        reveal_strlit("4");
        reveal_strlit("5");
        reveal_strlit("6");
        reveal_strlit("7");
        reveal_strlit("8");
        reveal_strlit("9");
        reveal_strlit("A");
        reveal_strlit("B");
        reveal_strlit("C");
        reveal_strlit("D");
        reveal_strlit("E");
        reveal_strlit("F");
    }
    match d {
        0 => "0",
        1 => "1",
        2 => "2",
        3 => "3",
        4 => "4",
        5 => "5",
        6 => "6",
        7 => "7",
        8 => "8",
        9 => "9",
        10 => "A",
        11 => "B",
        12 => "C",
        13 => "D",
        14 => "E",
        _ => "F",
    }
}

/// Appends the four hexadecimal digits of `v` to `s`.
fn push_hex4(s: &mut String, v: u16)
    ensures
        final(s)@ == old(s)@ + hex4(v as int),
{
    s.append(hex_digit_str(v / 0x1000 % 16));
    s.append(hex_digit_str(v / 0x100 % 16));
    s.append(hex_digit_str(v / 0x10 % 16));
    s.append(hex_digit_str(v % 16));
    proof {
        assert(s@ =~= old(s)@ + hex4(v as int));
    }
}

/// Renders the canonical hardware identifier `USB\VID_xxxx&PID_xxxx`
/// (upper-case hexadecimal, four digits each) of an identity.
pub fn hardware_id(d: DeviceIdentity) -> (r: String)
    ensures
        r@ == hardware_id_spec(d),
{
    let mut s = String::from_str("USB\\VID_");
    push_hex4(&mut s, d.vendor_id);
    s.append("&PID_");
    push_hex4(&mut s, d.product_id);
    proof {
        assert(s@ =~= hardware_id_spec(d));
    }
    s
}

} // verus!
