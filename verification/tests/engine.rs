use profugo::types::DBEngine;

#[test]
fn resolves_postgres() {
    assert!(matches!(DBEngine::from_str("postgres"), Some(DBEngine::Postgres)));
}

#[test]
fn resolves_mysql() {
    assert!(matches!(DBEngine::from_str("mysql"), Some(DBEngine::MySQL)));
}

#[test]
fn rejects_unknown_engine() {
    assert!(DBEngine::from_str("oracle").is_none());
}

#[test]
fn rejects_empty_identifier() {
    assert!(DBEngine::from_str("").is_none());
}

#[test]
fn match_is_case_sensitive() {
    assert!(DBEngine::from_str("Postgres").is_none());
    assert!(DBEngine::from_str("MYSQL").is_none());
}

#[test]
fn rejects_identifier_with_suffix() {
    assert!(DBEngine::from_str("postgresql").is_none());
    assert!(DBEngine::from_str("postgre").is_none());
}
