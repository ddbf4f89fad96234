//! The values that the service exchanges with its clients.

use vstd::prelude::*;
use vstd::string::*;
use crate::text::{ascii_uppered, push_char, to_ascii_upper};

verus! {

#[verifier::external_type_specification]
#[verifier::external_body]
pub struct ExJsonValue(serde_json::Value);

/// A call of a contract that is to be made into a transaction.
#[derive(Clone, Debug)]
pub struct BuildTransactionDto {
    pub contract_id: String,
    pub method: String,
    pub args: Vec<serde_json::Value>,
}

/// How far a submitted transaction has come.
#[derive(Clone, Copy, Debug, PartialEq, Eq, Structural)]
pub enum TransactionStatus {
    Pending,
    Confirmed,
    Failed,
}

/// What the network answered to a submitted transaction.
#[derive(Clone, Debug)]
pub struct SignedTransactionResponse {
    pub tx_hash: String,
    pub status: TransactionStatus,
}

/// The ledger address that the service gives a new user: the letter `G`
/// and the 32 hexadecimal digits of a fresh identifier, in upper case.
pub fn stellar_address(identifier: &str) -> (r: String)
    ensures
        r@ == seq!['G'] + ascii_uppered(identifier@),
{
    let n = identifier.unicode_len();
    let mut address = String::new();
    push_char(&mut address, 'G');
    let mut i: usize = 0;
    while i < n
        invariant
            i <= n,
            n == identifier@.len(),
            address@ == seq!['G'] + ascii_uppered(identifier@.subrange(0, i as int)),
        decreases n - i,
    {
        push_char(&mut address, to_ascii_upper(identifier.get_char(i)));
        i += 1;
    }
    address
}

} // verus!
