use lemon_tree_core::accounts::{
    check_admin, filter_user_record, AccountRecord, ResetRequestDB, ResetTokenDB, State,
};

fn account(role: &str) -> AccountRecord {
    AccountRecord {
        id: "7f9c".to_string(),
        name: "Ada".to_string(),
        email: "ada@example.com".to_string(),
        role: role.to_string(),
    }
}

#[test]
fn filtering_keeps_the_public_fields() {
    let user = account("admin");
    let filtered = filter_user_record(&user);
    assert_eq!(filtered.id, "7f9c");
    assert_eq!(filtered.name, "Ada");
    assert_eq!(filtered.email, "ada@example.com");
    assert_eq!(filtered.role, "admin");
}

#[test]
fn only_admins_pass_the_privilege_check() {
    assert!(check_admin(&account("admin")).is_ok());
    let err = check_admin(&account("customer")).unwrap_err();
    assert_eq!(err, "Insufficient privileges to complete the request");
}

#[test]
fn tokens_are_stored_looked_up_and_removed() {
    let mut db = ResetTokenDB::new();
    assert_eq!(db.get_token(&"t1".to_string()), None);
    db.add_token("t1".to_string(), 41);
    db.add_token("t2".to_string(), 42);
    assert_eq!(db.get_token(&"t1".to_string()), Some(41));
    assert_eq!(db.get_token(&"t2".to_string()), Some(42));
    db.remove_token(&"t1".to_string());
    assert_eq!(db.get_token(&"t1".to_string()), None);
    assert_eq!(db.get_token(&"t2".to_string()), Some(42));
}

#[test]
fn adding_a_token_again_replaces_its_owner() {
    let mut db = ResetTokenDB::new();
    db.add_token("t1".to_string(), 1);
    db.add_token("t1".to_string(), 2);
    assert_eq!(db.get_token(&"t1".to_string()), Some(2));
    db.remove_token(&"t1".to_string());
    assert_eq!(db.get_token(&"t1".to_string()), None);
}

#[test]
fn reset_requests_record_the_latest_time() {
    let mut db = ResetRequestDB::new();
    assert_eq!(db.get_request(&"ada@example.com".to_string()), None);
    db.add_request("ada@example.com".to_string(), 100);
    assert_eq!(db.get_request(&"ada@example.com".to_string()), Some(100));
    db.add_request("ada@example.com".to_string(), 250);
    assert_eq!(db.get_request(&"ada@example.com".to_string()), Some(250));
}

#[test]
fn fresh_state_is_empty() {
    let mut state = State::new();
    assert_eq!(state.reset_tokens.get_token(&"t".to_string()), None);
    assert_eq!(state.reset_requests.get_request(&"e".to_string()), None);
    state.reset_tokens.add_token("t".to_string(), 9);
    assert_eq!(state.reset_tokens.get_token(&"t".to_string()), Some(9));
}
