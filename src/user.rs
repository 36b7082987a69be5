use vstd::prelude::*;

verus! {

/// The characters of an optional text.
pub open spec fn opt_view(o: Option<String>) -> Option<Seq<char>> {
    match o {
        Some(s) => Some(s@),
        None => None,
    }
}

/// A registered account.
pub struct User {
    /// Hex form of the stored identifier; `None` until the account is stored.
    pub id: Option<String>,
    pub email: String,
    pub phone: Option<String>,
    /// Salted one-way hash of the password; never sent to a client.
    pub password_hash: String,
    pub full_name: Option<String>,
    /// `"customer"` or `"admin"`.
    pub role: String,
    /// Milliseconds since the Unix epoch.
    pub created_at: i64,
}

pub struct RegisterRequest {
    pub email: String,
    pub phone: Option<String>,
    pub password: String,
    pub full_name: Option<String>,
}

pub struct LoginRequest {
    pub email_or_phone: String,
    pub password: String,
}

pub struct AuthResponse {
    pub token: String,
    pub user: UserResponse,
}

/// What a client sees of an account.
pub struct UserResponse {
    pub id: String,
    pub email: String,
    pub full_name: Option<String>,
    pub role: String,
}

/// The payload of a session token.
#[derive(Clone, Debug)]
pub struct Claims {
    /// Identifier of the account.
    pub sub: String,
    pub email: String,
    pub role: String,
    /// Expiry, in seconds since the Unix epoch.
    pub exp: u64,
    /// Issue time, in seconds since the Unix epoch.
    pub iat: u64,
}

impl Claims {
    pub open spec fn fields(&self) -> (Seq<char>, Seq<char>, Seq<char>, u64, u64) {
        (self.sub@, self.email@, self.role@, self.exp, self.iat)
    }
}

} // verus!
