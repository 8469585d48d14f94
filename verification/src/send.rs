//! What a transfer needs before it goes to the server: a destination the
//! `monero` crate accepts, and an amount.

use vstd::prelude::*;
use crate::amount::{parse_xmr, xmr_input, XmrInput, XmrInputView};
use monero::util::address::{Address, Error as AddressError};

verus! {

#[verifier::external_type_specification]
#[verifier::external_body]
pub struct ExAddress(Address);

#[verifier::external_type_specification]
#[verifier::external_body]
pub struct ExAddressError(AddressError);

/// The address the `monero` crate reads from `s`, if it reads one: base58
/// that decodes to a network byte, two public keys (and a payment id for an
/// integrated address) and a matching checksum.
pub uninterp spec fn monero_address(s: Seq<char>) -> Option<Address>;

/// `<monero::util::address::Address as FromStr>::from_str`. Stated: it
/// succeeds exactly when `monero_address` gives an address, and then
/// returns that address; which error it returns otherwise is not stated.
#[verifier::external_body]
fn read_address(s: &str) -> (r: Result<Address, AddressError>)
    ensures
        r is Ok <==> monero_address(s@) is Some,
        r matches Ok(a) ==> monero_address(s@) == Some(a),
{
    s.parse::<Address>()
}

/// Why a transfer cannot be asked for.
#[derive(Clone, Copy, PartialEq, Eq, Structural, Debug)]
pub enum SendError {
    InvalidAddress,
    EmptyAmount,
    AmountOverflow,
}

/// The error, if any, of a transfer of `amount` to `address`: the address
/// is checked first.
pub open spec fn send_error(address: Seq<char>, amount: Seq<char>) -> Option<SendError> {
    if monero_address(address) is None {
        Some(SendError::InvalidAddress)
    } else {
        match xmr_input(amount) {
            XmrInputView::Empty => Some(SendError::EmptyAmount),
            XmrInputView::Overflow => Some(SendError::AmountOverflow),
            _ => None,
        }
    }
}

/// The destination and the amount of a transfer, read from the text typed:
/// the address that the `monero` crate reads from `address`, and the amount
/// read from `amount`; a decimal fraction is left for the caller to read.
pub fn transfer_request(address: &str, amount: &str) -> (r: Result<(Address, XmrInput), SendError>)
    ensures
        match send_error(address@, amount@) {
            Some(e) => r == Err::<(Address, XmrInput), SendError>(e),
            None => r matches Ok((d, a)) && monero_address(address@) == Some(d) && a@ == xmr_input(
                amount@,
            ),
        },
{
    let dest = match read_address(address) {
        Ok(d) => d,
        Err(_) => {
            return Err(SendError::InvalidAddress);
        },
    };
    let a = parse_xmr(amount);
    match a {
        XmrInput::Empty => Err(SendError::EmptyAmount),
        XmrInput::Overflow => Err(SendError::AmountOverflow),
        _ => Ok((dest, a)),
    }
}

} // verus!
