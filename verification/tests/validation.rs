use ledger::repository::{select_statement, AcquireFailure, Error};
use ledger::statements_cache::Statement;
use ledger::transaction::{Request, ValidateCreate};

fn req(valor: i16, tipo: &str, descricao: &str) -> Request {
    Request { valor, tipo: tipo.to_string(), descricao: descricao.to_string() }
}

#[test]
fn valid_request_is_accepted() {
    let v = ValidateCreate::validate(req(10, "c", "descricao")).unwrap();
    assert_eq!(v.0.valor, 10);
    assert_eq!(v.0.tipo, "c");
    assert_eq!(v.0.descricao, "descricao");
}

#[test]
fn invalid_kind_is_rejected() {
    assert!(ValidateCreate::validate(req(10, "x", "descricao")).is_none());
    assert!(ValidateCreate::validate(req(10, "", "descricao")).is_none());
    assert!(ValidateCreate::validate(req(10, "cd", "descricao")).is_none());
}

#[test]
fn long_description_is_rejected() {
    assert!(ValidateCreate::validate(req(10, "c", "descricao longa")).is_none());
}

#[test]
fn blank_description_is_rejected() {
    assert!(ValidateCreate::validate(req(10, "c", "")).is_none());
}

#[test]
fn ten_character_description_is_accepted() {
    assert!(ValidateCreate::validate(req(10, "d", "abcdefghij")).is_some());
}

#[test]
fn non_positive_amount_is_rejected() {
    assert!(ValidateCreate::validate(req(0, "c", "descricao")).is_none());
    assert!(ValidateCreate::validate(req(-5, "c", "descricao")).is_none());
}

#[test]
fn statement_selection_follows_the_kind_tag() {
    assert!(matches!(select_statement("c"), Ok(Statement::CreateCreditTransaction)));
    assert!(matches!(select_statement("d"), Ok(Statement::CreateDebitTransaction)));
    assert!(matches!(select_statement("x"), Err(Error::Internal(_))));
    assert!(matches!(select_statement(""), Err(Error::Internal(_))));
}

#[test]
fn acquire_timeout_maps_to_connection_error() {
    assert!(matches!(Error::from_acquire_failure(AcquireFailure::TimedOut), Error::Connection));
}

#[test]
fn acquire_transport_failure_maps_to_internal() {
    let e = Error::from_acquire_failure(AcquireFailure::Transport("broken pipe".to_string()));
    match e {
        Error::Internal(d) => assert_eq!(d, "broken pipe"),
        _ => panic!("expected Internal"),
    }
}

#[test]
fn transport_failure_maps_to_internal() {
    let e = Error::from_transport("bad row".to_string());
    match e {
        Error::Internal(d) => assert_eq!(d, "bad row"),
        _ => panic!("expected Internal"),
    }
}

#[test]
fn status_codes_match_the_error_taxonomy() {
    assert_eq!(Error::ClientNotFound.status_code(), 404);
    assert_eq!(Error::BalanceConstraintViolation.status_code(), 422);
    assert_eq!(Error::Connection.status_code(), 500);
    assert_eq!(Error::Internal("internal".to_string()).status_code(), 500);
}
