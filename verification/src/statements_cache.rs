//! The closed set of prepared statements, their SQL texts, and the
//! per-connection cache that holds one handle for each of them.
//!
//! The cache is keyed by a closed enum and is complete by construction: a
//! `Cache` can only be built with all three handles, so lookup is a total
//! function and a `Connection` is never usable with a missing statement.

use vstd::prelude::*;

verus! {

/// The logical identifiers of the three statements every connection prepares.
#[derive(PartialEq, Eq, Structural, Debug, Clone, Copy)]
pub enum Statement {
    CreateDebitTransaction,
    CreateCreditTransaction,
    GetBalance,
}

/// The text of the atomic debit routine call.
pub open spec fn debit_sql() -> Seq<char> {
    "SELECT * FROM debitar($1, $2, $3);"@
}

/// The text of the atomic credit routine call.
pub open spec fn credit_sql() -> Seq<char> {
    "SELECT * FROM creditar($1, $2, $3);"@
}

/// The text of the balance query: the account's balance and limit
/// left-joined with its ten most recent transactions, newest first.
pub open spec fn balance_sql() -> Seq<char> {
    "SELECT c.saldo, c.limite, t.valor, t.tipo, t.descricao, t.realizada_em FROM clientes c LEFT JOIN (SELECT cliente_id, valor, tipo, descricao, realizada_em FROM transacoes WHERE cliente_id = $1 ORDER BY id DESC LIMIT 10) AS t ON c.id = t.cliente_id WHERE c.id = $1;"@
}

/// The SQL text prepared for each logical statement.
pub open spec fn spec_sql_for(s: Statement) -> Seq<char> {
    match s {
        Statement::CreateDebitTransaction => debit_sql(),
        Statement::CreateCreditTransaction => credit_sql(),
        Statement::GetBalance => balance_sql(),
    }
}

/// Returns the SQL text to prepare for a logical statement.
pub fn sql_for(s: &Statement) -> (r: &'static str)
    ensures
        r@ == spec_sql_for(*s),
{
    match s {
        Statement::CreateDebitTransaction => "SELECT * FROM debitar($1, $2, $3);",
        Statement::CreateCreditTransaction => "SELECT * FROM creditar($1, $2, $3);",
        Statement::GetBalance => "SELECT c.saldo, c.limite, t.valor, t.tipo, t.descricao, t.realizada_em FROM clientes c LEFT JOIN (SELECT cliente_id, valor, tipo, descricao, realizada_em FROM transacoes WHERE cliente_id = $1 ORDER BY id DESC LIMIT 10) AS t ON c.id = t.cliente_id WHERE c.id = $1;",
    }
}

/// A complete statement cache: one prepared handle per logical statement,
/// populated exactly once at construction and immutable afterwards.
pub struct Cache<S> {
    debit: S,
    credit: S,
    balance: S,
}

impl<S> Cache<S> {
    /// The handle cached for a logical statement.
    pub closed spec fn spec_get(&self, s: Statement) -> S {
        match s {
            Statement::CreateDebitTransaction => self.debit,
            Statement::CreateCreditTransaction => self.credit,
            Statement::GetBalance => self.balance,
        }
    }

    /// The cache's contents as a mapping from logical statement to handle.
    pub open spec fn entries(&self) -> Map<Statement, S> {
        Map::new(|s: Statement| true, |s: Statement| self.spec_get(s))
    }

    /// Builds the cache from the three prepared handles.
    pub fn new(debit: S, credit: S, balance: S) -> (c: Self)
        ensures
            c.spec_get(Statement::CreateDebitTransaction) == debit,
            c.spec_get(Statement::CreateCreditTransaction) == credit,
            c.spec_get(Statement::GetBalance) == balance,
    {
        Cache { debit, credit, balance }
    }

    /// Looks a handle up by logical statement. The lookup is total: it
    /// cannot fail at runtime.
    pub fn get(&self, s: &Statement) -> (r: &S)
        ensures
            *r == self.spec_get(*s),
    {
        match s {
            Statement::CreateDebitTransaction => &self.debit,
            Statement::CreateCreditTransaction => &self.credit,
            Statement::GetBalance => &self.balance,
        }
    }
}

/// A cache always holds exactly three entries: one per logical statement,
/// and nothing else.
pub proof fn lemma_cache_complete<S>(c: &Cache<S>)
    ensures
        forall|s: Statement| c.entries().contains_key(s),
        c.entries().dom() =~= set![
            Statement::CreateDebitTransaction,
            Statement::CreateCreditTransaction,
            Statement::GetBalance,
        ],
        c.entries().len() == 3,
{
    let d = Statement::CreateDebitTransaction;
    let cr = Statement::CreateCreditTransaction;
    let g = Statement::GetBalance;
    assert forall|s: Statement| c.entries().dom().contains(s) implies (s == d || s == cr || s
        == g) by {
        match s {
            Statement::CreateDebitTransaction => {},
            Statement::CreateCreditTransaction => {},
            Statement::GetBalance => {},
        }
    }
    let s3 = set![d, cr, g];
    assert(c.entries().dom() =~= s3);
    assert(s3 =~= Set::empty().insert(d).insert(cr).insert(g));
    assert(s3.len() == 3);
}

/// A connection to the external store: the transport handle and the
/// connection-scoped statement cache it exclusively owns. Because a `Cache`
/// is complete by construction, a `Connection` can never be handed out with
/// a missing statement handle.
pub struct Connection<C, S> {
    pub client: C,
    pub statements: Cache<S>,
}

impl<C, S> Connection<C, S> {
    /// Wraps a freshly established transport handle together with its
    /// fully populated statement cache.
    pub fn new(client: C, statements: Cache<S>) -> (c: Self)
        ensures
            c.client == client,
            c.statements == statements,
    {
        Connection { client, statements }
    }
}

} // verus!
