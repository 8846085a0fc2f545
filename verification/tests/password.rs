use propeller::internal::random::generate_username;
use propeller::password::generate_random_password;

#[test]
fn password_length() {
    for length in vec![8, 16, 32] {
        let password = generate_random_password(length);
        assert_eq!(password.len(), length);
    }
}

#[test]
fn password_content() {
    let password = generate_random_password(10);
    assert!(password.chars().all(|c| c.is_alphanumeric()));
    assert!(password.chars().any(|c| c.is_lowercase()));
    assert!(password.chars().any(|c| c.is_uppercase()));
}

#[test]
fn password_of_no_length_is_empty() {
    assert_eq!(generate_random_password(0), "");
}

#[test]
fn password_is_ascii_letters_and_digits() {
    let password = generate_random_password(200);
    assert_eq!(password.chars().count(), 200);
    assert!(password.chars().all(|c| c.is_ascii_alphanumeric()));
}

#[test]
fn passwords_differ() {
    assert_ne!(generate_random_password(32), generate_random_password(32));
}

#[test]
fn username_is_prefix_and_random_part() {
    let username = generate_username("app_", 12);
    assert!(username.starts_with("app_"));
    assert_eq!(username.len(), 16);
    assert!(username["app_".len()..].chars().all(|c| c.is_ascii_alphanumeric()));
}
