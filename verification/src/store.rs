//! An in-memory store: accounts with the atomic debit/credit routines and
//! the balance query, behaving as the external store's stored routines are
//! documented to behave.
//!
//! The repository facade delegates the overdraft constraint entirely to the
//! store's atomic routine; this module is that routine's executable model.
//! It backs the substitutable repository double and feeds its results
//! through the same decoders the live facade uses, so the decode pipeline
//! is exercised end to end on plain values.

use crate::models;
use crate::repository;
use crate::repository::Error;
use crate::statement;
use crate::statements_cache::Statement;
use crate::transaction;
use crate::transaction::Request;
use vstd::prelude::*;
use vstd::string::StringExecFns;

verus! {

/// One account: its id, overdraft limit, current balance, and recorded
/// transactions, newest first.
pub struct Account {
    pub id: i16,
    pub limite: i32,
    pub saldo: i32,
    pub transactions: Vec<models::Transaction>,
}

impl Account {
    /// The overdraft constraint the store enforces atomically: the balance
    /// never drops below the negated limit.
    pub open spec fn wf(self) -> bool {
        self.limite >= 0 && self.saldo >= -(self.limite as int)
    }
}

/// Some account in the sequence carries this id.
pub open spec fn has_id(accounts: Seq<Account>, id: i16) -> bool {
    exists|i: int| 0 <= i < accounts.len() && accounts[i].id == id
}

/// The transaction record written for a request performed at `now`.
pub open spec fn is_record_of(t: models::Transaction, data: Request, now: u64) -> bool {
    &&& t.valor == data.valor
    &&& t.tipo@ == data.tipo@
    &&& t.descricao@ == data.descricao@
    &&& t.realizada_em == now
}

/// The account after a successful transaction: same id, same limit, the
/// new balance, and the new record prepended to the history.
pub open spec fn applied(a: Account, b: Account, data: Request, now: u64, new_saldo: int) -> bool {
    &&& b.id == a.id
    &&& b.limite == a.limite
    &&& b.saldo == new_saldo
    &&& b.transactions@.len() == a.transactions@.len() + 1
    &&& is_record_of(b.transactions@[0], data, now)
    &&& forall|k: int|
        0 <= k < a.transactions@.len() ==> b.transactions@[k + 1] == a.transactions@[k]
}

/// What one debit or credit does to the account it names, and what it
/// returns. A credit adds the amount, a debit subtracts it; both leave the
/// limit unchanged. A debit that would breach the overdraft limit changes
/// nothing and reports the violation; a credit that would overflow the
/// balance column changes nothing and is an internal failure.
pub open spec fn spec_outcome(
    a: Account,
    b: Account,
    data: Request,
    now: u64,
    r: Result<transaction::Response, Error>,
) -> bool {
    if data.tipo@ == transaction::credit_kind() {
        if a.saldo + data.valor <= i32::MAX {
            &&& r matches Ok(resp) && resp.saldo == a.saldo + data.valor && resp.limite
                == a.limite
            &&& applied(a, b, data, now, a.saldo + data.valor)
        } else {
            &&& r matches Err(e) && e is Internal
            &&& b == a
        }
    } else if data.tipo@ == transaction::debit_kind() {
        if a.saldo - data.valor >= -(a.limite as int) {
            &&& r matches Ok(resp) && resp.saldo == a.saldo - data.valor && resp.limite
                == a.limite
            &&& applied(a, b, data, now, a.saldo - data.valor)
        } else {
            &&& r matches Err(e) && e is BalanceConstraintViolation
            &&& b == a
        }
    } else {
        true
    }
}

/// At most ten entries of a history are reported.
pub open spec fn min_ten(n: int) -> int {
    if n > 10 {
        10
    } else {
        n
    }
}

/// What a balance enquiry returns for the account it names: the current
/// balance and limit, the snapshot instant, and the newest-first prefix of
/// the history, at most ten entries long.
pub open spec fn spec_snapshot(
    a: Account,
    now: u64,
    r: Result<statement::Response, Error>,
) -> bool {
    &&& r matches Ok(resp)
    &&& resp.saldo.total == a.saldo
    &&& resp.saldo.limite == a.limite
    &&& resp.saldo.data_extrato == now
    &&& resp.ultimas_transacoes@.len() == min_ten(a.transactions@.len() as int)
    &&& forall|k: int|
        0 <= k < resp.ultimas_transacoes@.len() ==> models::tx_matches(
            resp.ultimas_transacoes@[k],
            a.transactions@[k],
        )
}

/// A credit increases the balance by exactly the request's amount and a
/// debit decreases it by exactly that amount; both leave the overdraft
/// limit unchanged and prepend one record to the account's history.
pub proof fn lemma_transaction_moves_balance(
    a: Account,
    b: Account,
    data: Request,
    now: u64,
    r: Result<transaction::Response, Error>,
)
    requires
        spec_outcome(a, b, data, now, r),
        data.tipo@ == transaction::credit_kind() || data.tipo@ == transaction::debit_kind(),
        r is Ok,
    ensures
        b.limite == a.limite,
        data.tipo@ == transaction::credit_kind() ==> b.saldo == a.saldo + data.valor,
        data.tipo@ == transaction::debit_kind() ==> b.saldo == a.saldo - data.valor,
        b.transactions@.len() == a.transactions@.len() + 1,
        is_record_of(b.transactions@[0], data, now),
{
    assert(transaction::credit_kind()[0] == 'c');
    assert(transaction::debit_kind()[0] == 'd');
}

/// Snapshots list transactions newest first, matching the store's
/// insertion order: after a successful transaction, a snapshot of the
/// account starts with the record just written, followed by the previous
/// history, cut off after ten entries.
pub proof fn lemma_snapshot_newest_first(
    a: Account,
    b: Account,
    data: Request,
    now: u64,
    r: Result<transaction::Response, Error>,
    snap_now: u64,
    s: Result<statement::Response, Error>,
)
    requires
        spec_outcome(a, b, data, now, r),
        data.tipo@ == transaction::credit_kind() || data.tipo@ == transaction::debit_kind(),
        r is Ok,
        spec_snapshot(b, snap_now, s),
    ensures
        s matches Ok(snap) ==> {
            &&& snap.ultimas_transacoes@.len() == min_ten(a.transactions@.len() as int + 1)
            &&& snap.ultimas_transacoes@.len() >= 1
            &&& is_record_of(snap.ultimas_transacoes@[0], data, now)
            &&& forall|k: int|
                1 <= k < snap.ultimas_transacoes@.len() ==> models::tx_matches(
                    snap.ultimas_transacoes@[k],
                    a.transactions@[k - 1],
                )
        },
{
    assert(transaction::credit_kind()[0] == 'c');
    assert(transaction::debit_kind()[0] == 'd');
    if s is Ok {
        let snap = s->Ok_0;
        assert(models::tx_matches(snap.ultimas_transacoes@[0], b.transactions@[0]));
        assert forall|k: int| 1 <= k < snap.ultimas_transacoes@.len() implies models::tx_matches(
            snap.ultimas_transacoes@[k],
            a.transactions@[k - 1],
        ) by {
            assert(models::tx_matches(snap.ultimas_transacoes@[k], b.transactions@[k]));
            assert(b.transactions@[k] == a.transactions@[k - 1]);
        }
    }
}

/// The set of accounts, with unique ids, every balance within its limit.
pub struct Store {
    pub accounts: Vec<Account>,
}

/// Finds the account carrying `id`, if any.
fn find_account(accounts: &Vec<Account>, id: i16) -> (r: Option<usize>)
    ensures
        r matches Some(i) ==> i < accounts@.len() && accounts@[i as int].id == id,
        r is None ==> forall|j: int| 0 <= j < accounts@.len() ==> accounts@[j].id != id,
        r is None ==> !has_id(accounts@, id),
{
    let mut i: usize = 0;
    while i < accounts.len()
        invariant
            i <= accounts@.len(),
            forall|j: int| 0 <= j < i ==> accounts@[j].id != id,
        decreases accounts@.len() - i,
    {
        if accounts[i].id == id {
            return Some(i);
        }
        i += 1;
    }
    proof {
        if has_id(accounts@, id) {
            let w = choose|j: int| 0 <= j < accounts@.len() && accounts@[j].id == id;
            assert(accounts@[w].id != id);
        }
    }
    None
}

impl Store {
    /// Ids are unique and every account satisfies the overdraft constraint.
    pub open spec fn wf(self) -> bool {
        &&& forall|i: int, j: int|
            0 <= i < j < self.accounts@.len() ==> self.accounts@[i].id != self.accounts@[j].id
        &&& forall|i: int| 0 <= i < self.accounts@.len() ==> self.accounts@[i].wf()
    }

    /// An empty store.
    pub fn new() -> (s: Store)
        ensures
            s.wf(),
            s.accounts@.len() == 0,
    {
        Store { accounts: Vec::new() }
    }

    /// Opens an account with the given overdraft limit and a zero balance.
    pub fn add_account(&mut self, id: i16, limite: i32)
        requires
            old(self).wf(),
            limite >= 0,
            !has_id(old(self).accounts@, id),
        ensures
            final(self).wf(),
            final(self).accounts@.len() == old(self).accounts@.len() + 1,
            forall|i: int|
                0 <= i < old(self).accounts@.len() ==> final(self).accounts@[i] == old(
                    self,
                ).accounts@[i],
            final(self).accounts@.last().id == id,
            final(self).accounts@.last().limite == limite,
            final(self).accounts@.last().saldo == 0,
            final(self).accounts@.last().transactions@.len() == 0,
            has_id(final(self).accounts@, id),
    {
        let acct = Account { id, limite, saldo: 0, transactions: Vec::new() };
        self.accounts.push(acct);
        proof {
            let a = old(self).accounts@;
            let b = self.accounts@;
            assert forall|i: int| 0 <= i < a.len() implies a[i].id != id by {
                if a[i].id == id {
                    assert(has_id(a, id));
                }
            }
            assert forall|i: int, j: int| 0 <= i < j < b.len() implies b[i].id != b[j].id by {
                if j == a.len() {
                    assert(b[i] == a[i]);
                }
            }
            assert forall|i: int| 0 <= i < b.len() implies b[i].wf() by {
                if i < a.len() {
                    assert(b[i] == a[i]);
                }
            }
        }
    }

    /// Runs the atomic debit or credit routine for the request's kind: the
    /// statement is selected from the kind tag exactly as the live facade
    /// selects it, the account is looked up, the constraint is checked and
    /// the balance moved in one step, and the outcome is reported with the
    /// resulting balance and limit. An unknown account is `ClientNotFound`,
    /// never `Internal`; a successful outcome always satisfies the
    /// overdraft constraint.
    pub fn create_transaction(&mut self, client_id: i16, data: &Request, now: u64) -> (r: Result<
        transaction::Response,
        Error,
    >)
        requires
            old(self).wf(),
            data.valor >= 1,
        ensures
            final(self).wf(),
            data.tipo@ != transaction::credit_kind() && data.tipo@ != transaction::debit_kind()
                ==> (r matches Err(e) && e is Internal) && final(self).accounts@ == old(
                self,
            ).accounts@,
            (data.tipo@ == transaction::credit_kind() || data.tipo@ == transaction::debit_kind())
                && !has_id(old(self).accounts@, client_id) ==> (r matches Err(e)
                && e is ClientNotFound) && final(self).accounts@ == old(self).accounts@,
            final(self).accounts@.len() == old(self).accounts@.len(),
            forall|i: int|
                0 <= i < old(self).accounts@.len() && old(self).accounts@[i].id != client_id
                    ==> final(self).accounts@[i] == old(self).accounts@[i],
            forall|i: int|
                0 <= i < old(self).accounts@.len() && old(self).accounts@[i].id == client_id
                    ==> spec_outcome(
                    old(self).accounts@[i],
                    final(self).accounts@[i],
                    *data,
                    now,
                    r,
                ),
            r matches Ok(resp) ==> resp.saldo >= -(resp.limite as int),
    {
        let ghost a0 = old(self).accounts@;
        let stmt = match repository::select_statement(data.tipo.as_str()) {
            Ok(s) => s,
            Err(e) => { return Err(e) },
        };
        let idx = match find_account(&self.accounts, client_id) {
            Some(i) => i,
            None => { return Err(Error::ClientNotFound) },
        };
        let is_credit = match stmt {
            Statement::CreateCreditTransaction => true,
            _ => false,
        };
        let mut acct = self.accounts.remove(idx);
        proof {
            assert(acct == a0[idx as int]);
            assert(acct.wf());
        }
        let saldo64: i64 = acct.saldo as i64;
        let valor64: i64 = data.valor as i64;
        let new_total: i64 = if is_credit {
            saldo64 + valor64
        } else {
            saldo64 - valor64
        };
        if is_credit && new_total > (i32::MAX as i64) {
            self.accounts.insert(idx, acct);
            proof {
                assert(self.accounts@ =~= a0);
            }
            return Err(Error::Internal(String::from_str("balance overflow")));
        }
        if !is_credit && new_total < -(acct.limite as i64) {
            self.accounts.insert(idx, acct);
            proof {
                assert(self.accounts@ =~= a0);
            }
            return Err(Error::BalanceConstraintViolation);
        }
        let new_saldo: i32 = new_total as i32;
        let tx = models::Transaction {
            valor: data.valor,
            tipo: data.tipo.clone(),
            descricao: data.descricao.clone(),
            realizada_em: now,
        };
        acct.saldo = new_saldo;
        acct.transactions.insert(0, tx);
        let resp = transaction::Response { limite: acct.limite, saldo: new_saldo };
        let ghost acct_g = acct;
        self.accounts.insert(idx, acct);
        proof {
            let b = self.accounts@;
            assert(b =~= a0.update(idx as int, acct_g));
            assert(spec_outcome(a0[idx as int], b[idx as int], *data, now, Ok(resp)));
            assert forall|i: int, j: int| 0 <= i < j < b.len() implies b[i].id != b[j].id by {
                assert(a0[i].id != a0[j].id);
            }
            assert forall|i: int| 0 <= i < b.len() implies b[i].wf() by {
                if i != idx as int {
                    assert(b[i] == a0[i]);
                }
            }
            assert forall|i: int|
                0 <= i < a0.len() && a0[i].id == client_id implies spec_outcome(
                a0[i],
                b[i],
                *data,
                now,
                Ok(resp),
            ) by {
                if i != idx as int {
                    if i < idx as int {
                        assert(a0[i].id != a0[idx as int].id);
                    } else {
                        assert(a0[idx as int].id != a0[i].id);
                    }
                }
            }
        }
        Ok(resp)
    }

    /// Answers a balance enquiry by producing the rows the balance query
    /// would return — the account's balance and limit joined with its ten
    /// most recent transactions, or a single row with absent transaction
    /// columns for a fresh account, or no row at all for an unknown one —
    /// and decoding them exactly as the live facade does.
    pub fn get_balance(&self, client_id: i16, now: u64) -> (r: Result<statement::Response, Error>)
        requires
            self.wf(),
        ensures
            !has_id(self.accounts@, client_id) ==> (r matches Err(e) && e is ClientNotFound),
            forall|i: int|
                0 <= i < self.accounts@.len() && self.accounts@[i].id == client_id
                    ==> spec_snapshot(self.accounts@[i], now, r),
    {
        let idx = match find_account(&self.accounts, client_id) {
            Some(i) => i,
            None => {
                let rows: Vec<repository::BalanceRow> = Vec::new();
                let r = repository::decode_statement_rows(rows, now);
                proof {
                    assert forall|i: int|
                        0 <= i < self.accounts@.len() && self.accounts@[i].id == client_id
                            implies spec_snapshot(self.accounts@[i], now, r) by {
                        assert(has_id(self.accounts@, client_id));
                    }
                }
                return r;
            },
        };
        let acct = &self.accounts[idx];
        let mut rows: Vec<repository::BalanceRow> = Vec::new();
        if acct.transactions.len() == 0 {
            rows.push(
                repository::BalanceRow { saldo: acct.saldo, limite: acct.limite, transaction: None },
            );
        } else {
            let m = acct.transactions.len();
            let n: usize = if m > 10 {
                10
            } else {
                m
            };
            let mut k: usize = 0;
            while k < n
                invariant
                    k <= n,
                    n == min_ten(acct.transactions@.len() as int),
                    n <= acct.transactions@.len(),
                    rows@.len() == k,
                    forall|j: int|
                        0 <= j < k ==> rows@[j].saldo == acct.saldo && rows@[j].limite
                            == acct.limite,
                    forall|j: int| 0 <= j < k ==> rows@[j].transaction is Some,
                    forall|j: int|
                        0 <= j < k ==> models::tx_matches(
                            rows@[j].transaction.unwrap(),
                            acct.transactions@[j],
                        ),
                decreases n - k,
            {
                let t = &acct.transactions[k];
                let row = repository::BalanceRow {
                    saldo: acct.saldo,
                    limite: acct.limite,
                    transaction: Some(
                        models::Transaction {
                            valor: t.valor,
                            tipo: t.tipo.clone(),
                            descricao: t.descricao.clone(),
                            realizada_em: t.realizada_em,
                        },
                    ),
                };
                let ghost pre = rows@;
                rows.push(row);
                proof {
                    assert forall|j: int| 0 <= j < k + 1 implies rows@[j].transaction is Some
                        && models::tx_matches(
                        rows@[j].transaction.unwrap(),
                        acct.transactions@[j],
                    ) && rows@[j].saldo == acct.saldo && rows@[j].limite == acct.limite by {
                        if j < k as int {
                            assert(rows@[j] == pre[j]);
                        } else {
                            assert(rows@[j] == row);
                        }
                    }
                }
                k += 1;
            }
        }
        let ghost rows_g = rows@;
        let r = repository::decode_statement_rows(rows, now);
        proof {
            assert(rows_g.len() > 0);
            if rows_g[0].transaction is Some {
                assert(repository::rows_all_present(rows_g));
            }
            assert(spec_snapshot(self.accounts@[idx as int], now, r));
            assert forall|i: int|
                0 <= i < self.accounts@.len() && self.accounts@[i].id == client_id
                    implies spec_snapshot(self.accounts@[i], now, r) by {
                if i != idx as int {
                    if i < idx as int {
                        assert(self.accounts@[i].id != self.accounts@[idx as int].id);
                    } else {
                        assert(self.accounts@[idx as int].id != self.accounts@[i].id);
                    }
                }
            }
        }
        r
    }
}

} // verus!
