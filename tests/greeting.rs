use social_ledger::greeting::greet_user;

#[test]
fn test_greet_user() {
    let greeting = greet_user("Kwesili");
    assert_eq!(greeting, "Nice to meet you, Kwesili!");
}

#[test]
fn greet_user_empty_name() {
    assert_eq!(greet_user(""), "Nice to meet you, !");
}
