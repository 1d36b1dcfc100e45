//! Domain values shared by both repository operations.

use vstd::prelude::*;

verus! {

/// One recorded transaction: a positive amount, the kind tag (`"c"` for
/// credit, `"d"` for debit), a short description, and the instant it was
/// performed, in milliseconds since the epoch.
#[derive(Debug)]
pub struct Transaction {
    pub valor: i16,
    pub tipo: String,
    pub descricao: String,
    pub realizada_em: u64,
}

/// An account's balance as of a snapshot instant: the current total, the
/// instant the snapshot was decoded (milliseconds since the epoch), and the
/// overdraft limit.
#[derive(PartialEq, Eq, Structural, Debug, Clone, Copy)]
pub struct Balance {
    pub total: i32,
    pub data_extrato: u64,
    pub limite: i32,
}

/// Two transactions carry the same data: equal amounts, kinds, descriptions
/// and instants, with the strings compared by content.
pub open spec fn tx_matches(a: Transaction, b: Transaction) -> bool {
    &&& a.valor == b.valor
    &&& a.tipo@ == b.tipo@
    &&& a.descricao@ == b.descricao@
    &&& a.realizada_em == b.realizada_em
}

} // verus!
