use ledger::repository::Error;
use ledger::store::Store;
use ledger::transaction::Request;

fn req(valor: i16, tipo: &str, descricao: &str) -> Request {
    Request { valor, tipo: tipo.to_string(), descricao: descricao.to_string() }
}

#[test]
fn scenario_credit_debit_violation_and_statement() {
    let mut store = Store::new();
    store.add_account(1, 1000);

    let r = store.create_transaction(1, &req(100, "c", "salario"), 1).unwrap();
    assert_eq!(r.limite, 1000);
    assert_eq!(r.saldo, 100);

    let r = store.create_transaction(1, &req(50, "d", "bar"), 2).unwrap();
    assert_eq!(r.limite, 1000);
    assert_eq!(r.saldo, 50);

    let r = store.create_transaction(1, &req(2000, "d", "carro"), 3);
    assert!(matches!(r, Err(Error::BalanceConstraintViolation)));

    let snap = store.get_balance(1, 4).unwrap();
    assert_eq!(snap.saldo.total, 50);
    assert_eq!(snap.saldo.limite, 1000);
    assert_eq!(snap.saldo.data_extrato, 4);
    assert_eq!(snap.ultimas_transacoes.len(), 2);
    assert_eq!(snap.ultimas_transacoes[0].valor, 50);
    assert_eq!(snap.ultimas_transacoes[0].tipo, "d");
    assert_eq!(snap.ultimas_transacoes[0].descricao, "bar");
    assert_eq!(snap.ultimas_transacoes[1].valor, 100);
    assert_eq!(snap.ultimas_transacoes[1].tipo, "c");
    assert_eq!(snap.ultimas_transacoes[1].descricao, "salario");
}

#[test]
fn unknown_client_is_not_found_never_internal() {
    let mut store = Store::new();
    store.add_account(1, 1000);
    assert!(matches!(
        store.create_transaction(9, &req(10, "c", "mercado"), 1),
        Err(Error::ClientNotFound)
    ));
    assert!(matches!(
        store.create_transaction(9, &req(10, "d", "mercado"), 1),
        Err(Error::ClientNotFound)
    ));
    assert!(matches!(store.get_balance(9, 1), Err(Error::ClientNotFound)));
    assert!(matches!(Store::new().get_balance(1, 1), Err(Error::ClientNotFound)));
}

#[test]
fn successful_balances_respect_the_overdraft_limit() {
    let mut store = Store::new();
    store.add_account(1, 100);
    let r = store.create_transaction(1, &req(100, "d", "tudo"), 1).unwrap();
    assert_eq!(r.saldo, -100);
    assert!(r.saldo >= -r.limite);
    let r = store.create_transaction(1, &req(1, "d", "um"), 2);
    assert!(matches!(r, Err(Error::BalanceConstraintViolation)));
    let snap = store.get_balance(1, 3).unwrap();
    assert_eq!(snap.saldo.total, -100);
}

#[test]
fn debit_to_the_exact_limit_is_allowed() {
    let mut store = Store::new();
    store.add_account(7, 500);
    let r = store.create_transaction(7, &req(500, "d", "limite"), 1).unwrap();
    assert_eq!(r.saldo, -500);
    assert_eq!(r.limite, 500);
}

#[test]
fn invalid_kind_is_internal() {
    let mut store = Store::new();
    store.add_account(1, 1000);
    assert!(matches!(
        store.create_transaction(1, &req(10, "x", "mercado"), 1),
        Err(Error::Internal(_))
    ));
}

#[test]
fn fresh_account_has_an_empty_transaction_list() {
    let mut store = Store::new();
    store.add_account(2, 300);
    let snap = store.get_balance(2, 9).unwrap();
    assert_eq!(snap.saldo.total, 0);
    assert_eq!(snap.saldo.limite, 300);
    assert_eq!(snap.saldo.data_extrato, 9);
    assert!(snap.ultimas_transacoes.is_empty());
}

#[test]
fn statement_returns_at_most_ten_newest_first() {
    let mut store = Store::new();
    store.add_account(3, 0);
    for i in 1..=12i16 {
        let r = store.create_transaction(3, &req(i, "c", "dep"), i as u64).unwrap();
        assert_eq!(r.limite, 0);
    }
    let snap = store.get_balance(3, 100).unwrap();
    assert_eq!(snap.ultimas_transacoes.len(), 10);
    // Newest first: amounts 12 down to 3; the two oldest fall off.
    for (k, t) in snap.ultimas_transacoes.iter().enumerate() {
        assert_eq!(t.valor, 12 - k as i16);
        assert_eq!(t.realizada_em, (12 - k) as u64);
    }
    assert_eq!(snap.saldo.total, (1..=12i32).sum::<i32>());
}

#[test]
fn credit_overflow_is_internal_and_changes_nothing() {
    let mut store = Store::new();
    store.add_account(4, 0);
    store.accounts[0].saldo = i32::MAX - 5;
    let r = store.create_transaction(4, &req(10, "c", "estouro"), 1);
    assert!(matches!(r, Err(Error::Internal(_))));
    assert_eq!(store.accounts[0].saldo, i32::MAX - 5);
    assert_eq!(store.accounts[0].transactions.len(), 0);
}
