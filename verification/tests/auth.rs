use cableway_monitor::error::AppError;
use cableway_monitor::models::user::{User, UserRole};
use cableway_monitor::services::auth::{change_password, login_decision};

fn user(active: bool) -> User {
    User {
        id: 0x2a,
        username: "admin".to_string(),
        email: "admin@cableway.local".to_string(),
        full_name: "系统管理员".to_string(),
        role: UserRole::Admin,
        department: "技术部".to_string(),
        phone: None,
        is_active: active,
        last_login: None,
        created_at: 100,
        updated_at: 100,
    }
}

#[test]
fn login_with_the_right_password() {
    let hash = bcrypt::hash("admin123", 4).unwrap();
    let u = login_decision(Some(user(true)), &hash, "admin123", 5000).expect("the right password");
    assert_eq!(u.last_login, Some(5000));
    assert_eq!(u.updated_at, 5000);
    assert_eq!(u.created_at, 100);
    assert_eq!(u.username, "admin");
}

#[test]
fn login_refusals() {
    let hash = bcrypt::hash("admin123", 4).unwrap();
    match login_decision(Some(user(true)), &hash, "admin124", 5000) {
        Err(AppError::Unauthorized(m)) => assert_eq!(m, "用户名或密码错误"),
        _ => panic!("a wrong password is refused"),
    }
    match login_decision(None, &hash, "admin123", 5000) {
        Err(AppError::Unauthorized(m)) => assert_eq!(m, "用户名或密码错误"),
        _ => panic!("an unknown user is refused"),
    }
    match login_decision(Some(user(false)), &hash, "admin123", 5000) {
        Err(AppError::Unauthorized(m)) => assert_eq!(m, "用户已被禁用"),
        _ => panic!("a disabled user is refused"),
    }
    match login_decision(Some(user(true)), "not a hash", "admin123", 5000) {
        Err(AppError::Unauthorized(m)) => assert_eq!(m, "用户名或密码错误"),
        _ => panic!("a malformed hash verifies nothing"),
    }
}

#[test]
fn changing_a_password() {
    let hash = bcrypt::hash("old-secret", 4).unwrap();
    let new_hash = change_password(Some((user(true), hash.clone())), 0x2a, "old-secret", "new-secret")
        .expect("the old password is right");
    assert!(new_hash.starts_with("$2b$12$"));
    assert!(bcrypt::verify("new-secret", &new_hash).unwrap());
    match change_password(Some((user(true), hash)), 0x2a, "wrong", "new-secret") {
        Err(AppError::BadRequest(m)) => assert_eq!(m, "原密码错误"),
        _ => panic!("a wrong old password is a bad request"),
    }
    match change_password(None, 0x2a, "old-secret", "new-secret") {
        Err(AppError::NotFound(m)) => assert_eq!(m, "User 00000000-0000-0000-0000-00000000002a not found"),
        _ => panic!("an unknown user is not found"),
    }
}
