use moto_core::models::AuthToken;
use moto_core::storage::{InMemoryTokenStorage, TokenStorage};

fn sample_token() -> AuthToken {
    AuthToken {
        access_token: "jwt-token".to_string(),
        token_type: "bearer".to_string(),
        expires_in: Some(900),
    }
}

#[test]
fn starts_without_a_token() {
    let storage = InMemoryTokenStorage::new();
    assert_eq!(storage.load(), None);
}

#[test]
fn saves_and_loads_the_token() {
    let mut storage = InMemoryTokenStorage::new();
    storage.save(&sample_token());
    assert_eq!(storage.load(), Some(sample_token()));
}

#[test]
fn save_overwrites_the_previous_token() {
    let mut storage = InMemoryTokenStorage::new();
    storage.save(&sample_token());
    let other = AuthToken {
        access_token: "other-token".to_string(),
        ..sample_token()
    };
    storage.save(&other);

    assert_eq!(storage.load(), Some(other));
}

#[test]
fn clear_removes_the_saved_token() {
    let mut storage = InMemoryTokenStorage::new();
    storage.save(&sample_token());
    storage.clear();

    assert_eq!(storage.load(), None);
}
