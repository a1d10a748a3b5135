use vstd::prelude::*;
use vstd::slice::slice_to_vec;
use vstd::string::StringSliceAdditionalSpecFns;

use crate::error::ValidationError;

verus! {

/// A fixed-width account identifier of 20 bytes.
#[derive(Clone, Debug)]
pub struct Address {
    bytes: Vec<u8>,
}

impl View for Address {
    type V = Seq<u8>;

    closed spec fn view(&self) -> Seq<u8> {
        self.bytes@
    }
}

/// Whether every byte of a sequence is zero.
pub open spec fn is_zero_bytes(b: Seq<u8>) -> bool {
    forall|i: int| 0 <= i < b.len() ==> b[i] == 0
}

/// Whether a byte is an ASCII hexadecimal digit.
pub open spec fn is_hex_digit(b: u8) -> bool {
    (48 <= b <= 57) || (97 <= b <= 102) || (65 <= b <= 70)
}

/// The numeric value of an ASCII hexadecimal digit.
pub open spec fn hex_value(b: u8) -> int {
    if 48 <= b <= 57 {
        b - 48
    } else if 97 <= b <= 102 {
        b - 97 + 10
    } else {
        b - 65 + 10
    }
}

/// Whether a byte sequence spells an address: `0x` followed by exactly 40
/// hexadecimal digits.
pub open spec fn valid_address_bytes(s: Seq<u8>) -> bool {
    &&& s.len() == 42
    &&& s[0] == 48
    &&& s[1] == 120
    &&& forall|i: int| 2 <= i < 42 ==> is_hex_digit(#[trigger] s[i])
}

/// The 20 bytes an address string spells, two digits each.
pub open spec fn decoded_address(s: Seq<u8>) -> Seq<u8> {
    Seq::new(20, |i: int| (hex_value(s[2 + 2 * i]) * 16 + hex_value(s[2 + 2 * i + 1])) as u8)
}

impl Address {
    /// An address has exactly 20 bytes.
    pub open spec fn wf(&self) -> bool {
        self@.len() == 20
    }

    /// Whether this is the all-zero address, which is never a valid
    /// transfer destination.
    pub open spec fn is_zero_spec(&self) -> bool {
        is_zero_bytes(self@)
    }

    /// Wraps 20 raw bytes as an address.
    pub fn from_bytes(bytes: Vec<u8>) -> (r: Address)
        requires
            bytes@.len() == 20,
        ensures
            r@ == bytes@,
            r.wf(),
    {
        Address { bytes }
    }

    /// The raw bytes of the address.
    pub fn as_bytes(&self) -> (r: &Vec<u8>)
        ensures
            r@ == self@,
    {
        &self.bytes
    }

    /// Whether this is the all-zero address.
    pub fn is_zero(&self) -> (r: bool)
        requires
            self.wf(),
        ensures
            r == self.is_zero_spec(),
    {
        let mut i: usize = 0;
        while i < self.bytes.len()
            invariant
                i <= self.bytes.len(),
                forall|j: int| 0 <= j < i ==> self@[j] == 0,
            decreases self.bytes.len() - i,
        {
            if self.bytes[i] != 0 {
                assert(self@[i as int] != 0);
                return false;
            }
            i += 1;
        }
        true
    }
}

/// The numeric value of one ASCII hexadecimal digit, `None` for any other
/// byte.
fn hex_digit_value(b: u8) -> (r: Option<u8>)
    ensures
        is_hex_digit(b) ==> r == Some((hex_value(b) as u8)),
        !is_hex_digit(b) ==> r is None,
{
    if b >= 48 && b <= 57 {
        Some(b - 48)
    } else if b >= 97 && b <= 102 {
        Some(b - 97 + 10)
    } else if b >= 65 && b <= 70 {
        Some(b - 65 + 10)
    } else {
        None
    }
}

/// Checks that a destination string spells an address and that the address
/// is not the all-zero address, and returns the decoded bytes. Exactly the
/// malformed strings are rejected as malformed, and exactly the well-formed
/// spelling of the zero address is rejected as the zero address.
pub fn validate_address(s: &str) -> (r: Result<Address, ValidationError>)
    ensures
        (r matches Ok(a)) <==> valid_address_bytes(s.spec_bytes()) && !is_zero_bytes(
            decoded_address(s.spec_bytes()),
        ),
        r matches Ok(a) ==> a@ == decoded_address(s.spec_bytes()) && a.wf(),
        !valid_address_bytes(s.spec_bytes()) ==> r == Err::<Address, ValidationError>(
            ValidationError::MalformedAddress,
        ),
        valid_address_bytes(s.spec_bytes()) && is_zero_bytes(decoded_address(s.spec_bytes()))
            ==> r == Err::<Address, ValidationError>(ValidationError::ZeroAddress),
{
    let bytes: Vec<u8> = slice_to_vec(s.as_bytes());
    if bytes.len() != 42 {
        return Err(ValidationError::MalformedAddress);
    }
    if bytes[0] != 48 || bytes[1] != 120 {
        return Err(ValidationError::MalformedAddress);
    }
    let mut out: Vec<u8> = Vec::new();
    let mut i: usize = 0;
    while i < 20
        invariant
            i <= 20,
            bytes@ == s.spec_bytes(),
            bytes@.len() == 42,
            out@.len() == i,
            forall|j: int| 2 <= j < 2 + 2 * i ==> is_hex_digit(#[trigger] bytes@[j]),
            forall|j: int|
                0 <= j < i ==> out@[j] == (hex_value(bytes@[2 + 2 * j]) * 16 + hex_value(
                    bytes@[2 + 2 * j + 1],
                )) as u8,
        decreases 20 - i,
    {
        let hi = match hex_digit_value(bytes[2 * i + 2]) {
            Some(v) => v,
            None => {
                return Err(ValidationError::MalformedAddress);
            },
        };
        let lo = match hex_digit_value(bytes[2 * i + 3]) {
            Some(v) => v,
            None => {
                return Err(ValidationError::MalformedAddress);
            },
        };
        out.push(hi * 16 + lo);
        i += 1;
    }
    assert(valid_address_bytes(s.spec_bytes()));
    assert(out@ =~= decoded_address(s.spec_bytes()));
    let addr = Address::from_bytes(out);
    if addr.is_zero() {
        return Err(ValidationError::ZeroAddress);
    }
    Ok(addr)
}

} // verus!
