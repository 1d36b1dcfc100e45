use ledger::models::Transaction;
use ledger::repository::{decode_statement_rows, decode_transaction_row, BalanceRow, Error};
use ledger::transaction::Response;

#[test]
fn code_zero_is_success() {
    let r = decode_transaction_row(0, Some(150), Some(1000)).unwrap();
    assert_eq!(r, Response { saldo: 150, limite: 1000 });
}

#[test]
fn code_zero_with_missing_column_is_internal() {
    assert!(matches!(decode_transaction_row(0, None, Some(1000)), Err(Error::Internal(_))));
    assert!(matches!(decode_transaction_row(0, Some(1), None), Err(Error::Internal(_))));
}

#[test]
fn code_one_is_client_not_found() {
    assert!(matches!(decode_transaction_row(1, Some(1), Some(2)), Err(Error::ClientNotFound)));
    assert!(matches!(decode_transaction_row(1, None, None), Err(Error::ClientNotFound)));
}

#[test]
fn code_two_is_balance_constraint_violation() {
    assert!(matches!(
        decode_transaction_row(2, Some(1), Some(2)),
        Err(Error::BalanceConstraintViolation)
    ));
}

#[test]
fn unknown_codes_are_internal_never_success() {
    for code in [-1i16, 3, 4, 7, i16::MAX, i16::MIN] {
        assert!(matches!(
            decode_transaction_row(code, Some(10), Some(20)),
            Err(Error::Internal(_))
        ));
    }
}

fn tx(valor: i16, tipo: &str, descricao: &str, realizada_em: u64) -> Transaction {
    Transaction {
        valor,
        tipo: tipo.to_string(),
        descricao: descricao.to_string(),
        realizada_em,
    }
}

#[test]
fn no_rows_is_client_not_found() {
    let r = decode_statement_rows(Vec::new(), 7);
    assert!(matches!(r, Err(Error::ClientNotFound)));
}

#[test]
fn absent_transaction_columns_mean_empty_list() {
    let rows = vec![BalanceRow { saldo: 20, limite: 1000, transaction: None }];
    let resp = decode_statement_rows(rows, 99).unwrap();
    assert_eq!(resp.saldo.total, 20);
    assert_eq!(resp.saldo.limite, 1000);
    assert_eq!(resp.saldo.data_extrato, 99);
    assert!(resp.ultimas_transacoes.is_empty());
}

#[test]
fn rows_decode_in_query_order() {
    let rows = vec![
        BalanceRow { saldo: 50, limite: 1000, transaction: Some(tx(50, "d", "bar", 2)) },
        BalanceRow { saldo: 50, limite: 1000, transaction: Some(tx(100, "c", "salario", 1)) },
    ];
    let resp = decode_statement_rows(rows, 3).unwrap();
    assert_eq!(resp.saldo.total, 50);
    assert_eq!(resp.saldo.limite, 1000);
    assert_eq!(resp.saldo.data_extrato, 3);
    assert_eq!(resp.ultimas_transacoes.len(), 2);
    assert_eq!(resp.ultimas_transacoes[0].valor, 50);
    assert_eq!(resp.ultimas_transacoes[0].tipo, "d");
    assert_eq!(resp.ultimas_transacoes[0].descricao, "bar");
    assert_eq!(resp.ultimas_transacoes[0].realizada_em, 2);
    assert_eq!(resp.ultimas_transacoes[1].valor, 100);
    assert_eq!(resp.ultimas_transacoes[1].tipo, "c");
    assert_eq!(resp.ultimas_transacoes[1].descricao, "salario");
    assert_eq!(resp.ultimas_transacoes[1].realizada_em, 1);
}

#[test]
fn missing_transaction_in_later_row_is_internal() {
    let rows = vec![
        BalanceRow { saldo: 50, limite: 1000, transaction: Some(tx(50, "d", "bar", 2)) },
        BalanceRow { saldo: 50, limite: 1000, transaction: None },
    ];
    assert!(matches!(decode_statement_rows(rows, 0), Err(Error::Internal(_))));
}
