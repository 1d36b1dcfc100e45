//! The repository facade's decision core: the domain error taxonomy, the
//! translation of low-level failures into it, the selection of the prepared
//! statement for a request, and the decoding of the store's results into
//! domain values.

use crate::models;
use crate::statement;
use crate::statements_cache::Statement;
use crate::transaction;
use vstd::prelude::*;
use vstd::string::StringExecFns;

verus! {

/// The four domain outcomes a repository operation can fail with. They are
/// never merged: transport failures surface as `Connection` or `Internal`,
/// domain outcomes as `ClientNotFound` or `BalanceConstraintViolation`.
#[derive(Debug)]
pub enum Error {
    /// Pool exhaustion or acquisition timeout.
    Connection,
    /// Unexpected decode or driver failure; the detail is diagnostic only.
    Internal(String),
    /// The referenced account does not exist.
    ClientNotFound,
    /// The transaction would breach the account's overdraft limit.
    BalanceConstraintViolation,
}

/// How an attempt to borrow a pooled connection can fail: the configured
/// timeout elapsed, or the underlying transport reported an error.
pub enum AcquireFailure {
    TimedOut,
    Transport(String),
}

impl Error {
    /// Translates a pool-acquisition failure: a timeout becomes `Connection`,
    /// a transport error becomes `Internal` with its message.
    pub fn from_acquire_failure(failure: AcquireFailure) -> (r: Error)
        ensures
            failure is TimedOut ==> r is Connection,
            failure matches AcquireFailure::Transport(m) ==> r matches Error::Internal(d) && d == m,
    {
        match failure {
            AcquireFailure::TimedOut => Error::Connection,
            AcquireFailure::Transport(m) => Error::Internal(m),
        }
    }

    /// Translates a transport or protocol failure during prepare or execute:
    /// always `Internal`, carrying the diagnostic message.
    pub fn from_transport(detail: String) -> (r: Error)
        ensures
            r matches Error::Internal(d) && d == detail,
    {
        Error::Internal(detail)
    }

    /// The HTTP status the boundary layer answers with for this error:
    /// an unknown account is 404, a breached limit is 422, and transport or
    /// internal failures are 500.
    pub fn status_code(&self) -> (r: u16)
        ensures
            self is ClientNotFound ==> r == 404,
            self is BalanceConstraintViolation ==> r == 422,
            self is Connection || self is Internal ==> r == 500,
    {
        match self {
            Error::ClientNotFound => 404,
            Error::BalanceConstraintViolation => 422,
            Error::Connection => 500,
            Error::Internal(_) => 500,
        }
    }
}

/// Decodes the one row returned by the atomic debit/credit routine. The row
/// carries a discriminator code and, on success, the resulting balance and
/// limit; a column the driver could not read arrives as `None`.
///
/// Code 0 is the only success; 1 means the account does not exist; 2 means
/// the overdraft limit would be breached; any other code is an invariant
/// break and is never treated as success.
pub fn decode_transaction_row(
    code: i16,
    saldo: Option<i32>,
    limite: Option<i32>,
) -> (r: Result<transaction::Response, Error>)
    ensures
        code == 0 && saldo is Some && limite is Some ==> (r matches Ok(resp)
            && resp.saldo == saldo.unwrap() && resp.limite == limite.unwrap()),
        code == 0 && (saldo is None || limite is None) ==> (r matches Err(e) && e is Internal),
        code == 1 ==> (r matches Err(e) && e is ClientNotFound),
        code == 2 ==> (r matches Err(e) && e is BalanceConstraintViolation),
        code != 0 && code != 1 && code != 2 ==> (r matches Err(e) && e is Internal),
        r is Ok ==> code == 0,
{
    match code {
        0 => match (saldo, limite) {
            (Some(s), Some(l)) => Ok(transaction::Response { saldo: s, limite: l }),
            _ => Err(Error::Internal(String::from_str("missing balance column"))),
        },
        1 => Err(Error::ClientNotFound),
        2 => Err(Error::BalanceConstraintViolation),
        _ => Err(Error::Internal(String::from_str("unknown result code"))),
    }
}

/// Selects the prepared statement for a transaction request's kind tag:
/// `"c"` runs the credit routine, `"d"` the debit routine, and any other
/// tag is an internal invariant break, never silently accepted.
pub fn select_statement(tipo: &str) -> (r: Result<Statement, Error>)
    ensures
        tipo@ == transaction::credit_kind() ==> (r matches Ok(s)
            && s == Statement::CreateCreditTransaction),
        tipo@ == transaction::debit_kind() ==> (r matches Ok(s)
            && s == Statement::CreateDebitTransaction),
        tipo@ != transaction::credit_kind() && tipo@ != transaction::debit_kind() ==> (
        r matches Err(e) && e is Internal),
{
    proof {
        assert(transaction::credit_kind()[0] == 'c');
        assert(transaction::debit_kind()[0] == 'd');
    }
    if transaction::is_single_char(tipo, 'c') {
        Ok(Statement::CreateCreditTransaction)
    } else if transaction::is_single_char(tipo, 'd') {
        Ok(Statement::CreateDebitTransaction)
    } else {
        Err(Error::Internal(String::from_str("invalid transaction type")))
    }
}

/// One row of the balance query as plain values: the account's balance and
/// limit, and — where the left join found one — the transaction the row
/// carries. A fresh account yields a single row whose transaction columns
/// are absent.
pub struct BalanceRow {
    pub saldo: i32,
    pub limite: i32,
    pub transaction: Option<models::Transaction>,
}

/// Every row carries a transaction.
pub open spec fn rows_all_present(rows: Seq<BalanceRow>) -> bool {
    forall|i: int| 0 <= i < rows.len() ==> rows[i].transaction is Some
}

/// Decodes the rows of the balance query. No row at all means the account
/// does not exist. Rows whose first transaction column is absent mean the
/// account exists with no transactions yet: the list is empty, not an
/// error. Otherwise every row must carry one transaction, decoded in query
/// order, which is already newest first. The snapshot instant is `now`,
/// stamped at decode time rather than read from storage.
pub fn decode_statement_rows(rows: Vec<BalanceRow>, now: u64) -> (r: Result<
    statement::Response,
    Error,
>)
    ensures
        rows@.len() == 0 ==> (r matches Err(e) && e is ClientNotFound),
        rows@.len() > 0 ==> (r matches Ok(resp) ==> resp.saldo.total == rows@[0].saldo
            && resp.saldo.limite == rows@[0].limite && resp.saldo.data_extrato == now),
        rows@.len() > 0 && rows@[0].transaction is None ==> (r matches Ok(resp)
            && resp.ultimas_transacoes@.len() == 0),
        rows@.len() > 0 && rows@[0].transaction is Some && rows_all_present(rows@) ==> (
        r matches Ok(resp) && resp.ultimas_transacoes@.len() == rows@.len() && forall|i: int|
            0 <= i < rows@.len() ==> models::tx_matches(
                resp.ultimas_transacoes@[i],
                rows@[i].transaction.unwrap(),
            )),
        rows@.len() > 0 && rows@[0].transaction is Some && !rows_all_present(rows@) ==> (
        r matches Err(e) && e is Internal),
{
    if rows.len() == 0 {
        return Err(Error::ClientNotFound);
    }
    let saldo = models::Balance {
        total: rows[0].saldo,
        data_extrato: now,
        limite: rows[0].limite,
    };
    if rows[0].transaction.is_none() {
        return Ok(statement::Response { saldo, ultimas_transacoes: Vec::new() });
    }
    let mut transactions: Vec<models::Transaction> = Vec::new();
    let mut i: usize = 0;
    while i < rows.len()
        invariant
            0 <= i <= rows@.len(),
            rows@.len() > 0,
            rows@[0].transaction is Some,
            saldo.total == rows@[0].saldo,
            saldo.limite == rows@[0].limite,
            saldo.data_extrato == now,
            transactions@.len() == i,
            forall|j: int| 0 <= j < i ==> rows@[j].transaction is Some,
            forall|j: int|
                0 <= j < i ==> models::tx_matches(
                    transactions@[j],
                    rows@[j].transaction.unwrap(),
                ),
        decreases rows@.len() - i,
    {
        let row = &rows[i];
        match &row.transaction {
            Some(t) => {
                let tx = models::Transaction {
                    valor: t.valor,
                    tipo: t.tipo.clone(),
                    descricao: t.descricao.clone(),
                    realizada_em: t.realizada_em,
                };
                let ghost pre = transactions@;
                transactions.push(tx);
                proof {
                    assert forall|j: int| 0 <= j < i + 1 implies rows@[j].transaction is Some
                        && models::tx_matches(
                        transactions@[j],
                        rows@[j].transaction.unwrap(),
                    ) by {
                        if j == i as int {
                            assert(transactions@[j] == tx);
                            assert(*t == rows@[j].transaction.unwrap());
                        } else {
                            assert(transactions@[j] == pre[j]);
                            assert(models::tx_matches(pre[j], rows@[j].transaction.unwrap()));
                        }
                    }
                }
            },
            None => {
                return Err(Error::Internal(String::from_str("missing transaction column")));
            },
        }
        i += 1;
    }
    proof {
        assert(rows_all_present(rows@));
    }
    Ok(statement::Response { saldo, ultimas_transacoes: transactions })
}

} // verus!
