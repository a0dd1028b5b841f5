use vstd::prelude::*;

verus! {

/// A user of the platform; times are Unix seconds.
#[derive(Debug, Clone)]
pub struct User {
    pub id: u128,
    pub username: String,
    pub email: String,
    pub full_name: String,
    pub role: UserRole,
    pub department: String,
    pub phone: Option<String>,
    pub is_active: bool,
    pub last_login: Option<i64>,
    pub created_at: i64,
    pub updated_at: i64,
}

/// The roles of users, from the least to the most privileged: viewers,
/// operations staff and administrators.
#[derive(Debug, Clone, Copy, PartialEq, Eq, Structural)]
pub enum UserRole {
    Viewer,
    Operator,
    Admin,
}

} // verus!
