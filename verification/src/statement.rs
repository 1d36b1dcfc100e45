//! The balance-statement response: an account's balance snapshot plus its
//! most recent transactions, newest first.

use crate::models;
use vstd::prelude::*;

verus! {

/// The answer to a balance enquiry: the snapshot and up to ten most recent
/// transactions, ordered newest first.
#[derive(Debug)]
pub struct Response {
    pub saldo: models::Balance,
    pub ultimas_transacoes: Vec<models::Transaction>,
}

} // verus!
