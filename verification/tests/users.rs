use book_bot::users::User;

#[test]
fn new_user_is_fresh() {
    let user = User::new(42);
    assert_eq!(user.user_id, None);
    assert_eq!(user.books_created, 0);
    assert_eq!(user.chat_id, 42);
    assert!(!user.is_admin);
}

#[test]
fn new_user_keeps_negative_chat_ids() {
    let user = User::new(-1001234567890);
    assert_eq!(user.chat_id, -1001234567890);
}
