use vstd::prelude::*;
use crate::error::{AppError, ErrorModel};
use crate::user::{opt_view, Claims, RegisterRequest, User, UserResponse};

verus! {

/// Shortest accepted password, in characters.
pub const MIN_PASSWORD_CHARS: usize = 8;

/// How long a session token stays valid, in seconds.
pub const TOKEN_LIFETIME_SECS: u64 = 24 * 60 * 60;

/// What bcrypt's verification answers for a password and a stored hash:
/// `Some(true)` on a match, `Some(false)` on a mismatch, `None` for a malformed hash.
pub uninterp spec fn bcrypt_check_of(password: Seq<char>, hash: Seq<char>) -> Option<bool>;

/// The HS256 token that jsonwebtoken produces for a payload
/// (subject, email, role, expiry, issue time) and a secret.
pub uninterp spec fn hs256_token_of(
    claims: (Seq<char>, Seq<char>, Seq<char>, u64, u64),
    secret: Seq<char>,
) -> Option<Seq<char>>;

/// The payload (subject, email, role, expiry, issue time) that jsonwebtoken reads
/// out of an HS256 token whose structure and signature check under `secret`;
/// `None` when they do not, or when a field is missing or of the wrong kind.
pub uninterp spec fn hs256_claims_of(token: Seq<char>, secret: Seq<char>) -> Option<
    (Seq<char>, Seq<char>, Seq<char>, u64, u64),
>;

/// Relies on `bcrypt::hash` at the default cost: a salted hash drawn with OS
/// randomness, which `bcrypt::verify` accepts for the same password.
#[verifier::external_body]
fn hash_password(password: &str) -> (r: Option<String>)
    ensures
        r matches Some(h) ==> bcrypt_check_of(password@, h@) == Some(true),
{
    bcrypt::hash(password.as_bytes(), bcrypt::DEFAULT_COST).ok()
}

/// Relies on `bcrypt::verify`: recomputes the hash with the stored salt and cost.
#[verifier::external_body]
fn check_password(password: &str, hash: &str) -> (r: Option<bool>)
    ensures
        r == bcrypt_check_of(password@, hash@),
{
    bcrypt::verify(password.as_bytes(), hash).ok()
}

/// Relies on `jsonwebtoken::encode` with the default header (HS256), the claims
/// written as a JSON object; an HMAC key always fits that header.
#[verifier::external_body]
fn sign_claims(claims: &Claims, secret: &str) -> (r: Option<String>)
    ensures
        r is Some,
        opt_view(r) == hs256_token_of(claims.fields(), secret@),
{
    let mut payload = serde_json::Map::new();
    payload.insert("sub".to_string(), serde_json::Value::from(claims.sub.as_str()));
    payload.insert("email".to_string(), serde_json::Value::from(claims.email.as_str()));
    payload.insert("role".to_string(), serde_json::Value::from(claims.role.as_str()));
    payload.insert("exp".to_string(), serde_json::Value::from(claims.exp));
    payload.insert("iat".to_string(), serde_json::Value::from(claims.iat));
    let key = jsonwebtoken::EncodingKey::from_secret(secret.as_bytes());
    jsonwebtoken::encode(&jsonwebtoken::Header::default(), &payload, &key).ok()
}

/// Relies on `jsonwebtoken::decode` with HS256 and the expiry check switched off
/// (no clock is read): the token's structure and signature are checked, and the
/// payload's five fields are moved into a `Claims`. A token that `encode` made
/// with the same secret carries the default header, an `exp` and no audience,
/// so it decodes to the payload it was made from.
#[verifier::external_body]
fn decode_claims(token: &str, secret: &str) -> (r: Option<Claims>)
    ensures
        r is None ==> forall|c: (Seq<char>, Seq<char>, Seq<char>, u64, u64)|
            #[trigger] hs256_token_of(c, secret@) != Some(token@),
        r matches Some(x) ==> forall|c: (Seq<char>, Seq<char>, Seq<char>, u64, u64)|
            #[trigger] hs256_token_of(c, secret@) == Some(token@) ==> x.fields() == c,
        match r {
            Some(c) => hs256_claims_of(token@, secret@) == Some(c.fields()),
            None => hs256_claims_of(token@, secret@) is None,
        },
{
    let mut validation = jsonwebtoken::Validation::default();
    validation.validate_exp = false;
    let key = jsonwebtoken::DecodingKey::from_secret(secret.as_bytes());
    let v = jsonwebtoken::decode::<serde_json::Value>(token, &key, &validation).ok()?.claims;
    let text = |k: &str| v.get(k).and_then(|x| x.as_str()).map(|x| x.to_string());
    let num = |k: &str| v.get(k).and_then(|x| x.as_u64());
    Some(Claims { sub: text("sub")?, email: text("email")?, role: text("role")?, exp: num("exp")?, iat: num("iat")? })
}

/// Relies on `chrono::Utc::now`: the current time in whole seconds since the Unix
/// epoch. `Utc::now` panics rather than return a time before the epoch.
#[verifier::external_body]
fn unix_seconds() -> (r: u64) {
    chrono::Utc::now().timestamp() as u64
}

pub open spec fn invalid_credentials() -> ErrorModel {
    ErrorModel::AuthError("Invalid credentials"@)
}

pub open spec fn invalid_token() -> ErrorModel {
    ErrorModel::AuthError("Invalid token"@)
}

/// Whether a password is too short to register with.
pub open spec fn password_too_short(password: Seq<char>) -> bool {
    password.len() < MIN_PASSWORD_CHARS
}

/// The failure that registration reports before any hashing, if any: a short
/// password first, whatever else the request holds, then an existing account.
pub open spec fn registration_error(password: Seq<char>, already_registered: bool) -> Option<
    ErrorModel,
> {
    if password_too_short(password) {
        Some(ErrorModel::ValidationError("Password must be at least 8 characters"@))
    } else if already_registered {
        Some(ErrorModel::ValidationError("Email or phone already registered"@))
    } else {
        None
    }
}

/// The failure that login reports for the account found (if any) and the password
/// given; `None` when the login succeeds.
pub open spec fn login_error(found: Option<User>, password: Seq<char>) -> Option<ErrorModel> {
    match found {
        None => Some(invalid_credentials()),
        Some(u) => match bcrypt_check_of(password, u.password_hash@) {
            Some(true) => None,
            Some(false) => Some(invalid_credentials()),
            None => Some(ErrorModel::InternalError),
        },
    }
}

/// The payload issued to `user` at time `now`.
pub open spec fn claims_for(user: User, now: u64) -> (Seq<char>, Seq<char>, Seq<char>, u64, u64) {
    (user.id.unwrap()@, user.email@, user.role@, (now + TOKEN_LIFETIME_SECS) as u64, now)
}

/// Whether a token expiring at `exp` has run out at time `now`.
pub open spec fn expired(exp: u64, now: u64) -> bool {
    exp < now
}

/// How verification of `token` under `secret` ends at time `now`: the decoded
/// payload, or the one failure that every cause reads as.
pub open spec fn token_outcome(token: Seq<char>, secret: Seq<char>, now: u64) -> Result<
    (Seq<char>, Seq<char>, Seq<char>, u64, u64),
    ErrorModel,
> {
    match hs256_claims_of(token, secret) {
        None => Err(invalid_token()),
        Some(f) => if expired(f.3, now) {
            Err(invalid_token())
        } else {
            Ok(f)
        },
    }
}

/// How verification ends for a decoded payload (if the token decoded) at time `now`.
pub open spec fn expiry_outcome(decoded: Option<Claims>, now: u64) -> Result<Claims, ErrorModel> {
    match decoded {
        None => Err(invalid_token()),
        Some(c) => if expired(c.exp, now) {
            Err(invalid_token())
        } else {
            Ok(c)
        },
    }
}

/// What an account lookup asks of the store: the email, or the phone when there is one.
pub struct IdentityLookup {
    pub email: String,
    pub phone: Option<String>,
}

/// Whether an account answers a lookup for `email` or `phone`.
pub open spec fn lookup_admits(email: Seq<char>, phone: Option<Seq<char>>, u: User) -> bool {
    u.email@ == email || (phone matches Some(p) && opt_view(u.phone) == Some(p))
}

/// The phone that a registration is checked against: none when absent or empty.
pub open spec fn registration_phone(phone: Option<Seq<char>>) -> Option<Seq<char>> {
    match phone {
        Some(p) => if p.len() == 0 {
            None
        } else {
            Some(p)
        },
        None => None,
    }
}

impl IdentityLookup {
    /// Whether `u` answers this lookup.
    pub fn matches(&self, u: &User) -> (r: bool)
        ensures
            r == lookup_admits(self.email@, opt_view(self.phone), *u),
    {
        if u.email == self.email {
            return true;
        }
        match (&self.phone, &u.phone) {
            (Some(p), Some(q)) => *q == *p,
            _ => false,
        }
    }
}

/// The stateless credential and token service.
pub struct AuthService;

impl AuthService {
    /// Rejects a password shorter than eight characters.
    pub fn check_password_length(password: &str) -> (r: Result<(), AppError>)
        ensures
            password_too_short(password@) ==> (r matches Err(e) && e@ == registration_error(
                password@,
                false,
            ).unwrap()),
            !password_too_short(password@) ==> r is Ok,
    {
        if password.unicode_len() < MIN_PASSWORD_CHARS {
            Err(AppError::ValidationError(String::from_str("Password must be at least 8 characters")))
        } else {
            Ok(())
        }
    }

    /// The lookup that finds an account clashing with a registration: same email,
    /// or same phone when the request gives a non-empty one.
    pub fn registration_lookup(req: &RegisterRequest) -> (r: IdentityLookup)
        ensures
            r.email@ == req.email@,
            opt_view(r.phone) == registration_phone(opt_view(req.phone)),
    {
        let phone = match &req.phone {
            Some(p) => if p.as_str().unicode_len() == 0 {
                None
            } else {
                Some(p.clone())
            },
            None => None,
        };
        IdentityLookup { email: req.email.clone(), phone }
    }

    /// The lookup that finds the account for a login name, by email or by phone.
    pub fn login_lookup(email_or_phone: &str) -> (r: IdentityLookup)
        ensures
            r.email@ == email_or_phone@,
            opt_view(r.phone) == Some(email_or_phone@),
    {
        IdentityLookup { email: email_or_phone.to_string(), phone: Some(email_or_phone.to_string()) }
    }

    /// Builds the account to store for a registration, given whether an account
    /// with the same email or phone already exists. The password is hashed with a
    /// fresh salt; the account gets the customer role and no identifier yet.
    pub fn register(req: RegisterRequest, already_registered: bool, created_at: i64) -> (r: Result<
        User,
        AppError,
    >)
        ensures
            registration_error(req.password@, already_registered) matches Some(e) ==> (r matches Err(
                x,
            ) && x@ == e),
            registration_error(req.password@, already_registered) is None ==> match r {
                Ok(u) => {
                    &&& u.id.is_none()
                    &&& u.email == req.email
                    &&& u.phone == req.phone
                    &&& u.full_name == req.full_name
                    &&& u.role@ == "customer"@
                    &&& u.created_at == created_at
                    &&& bcrypt_check_of(req.password@, u.password_hash@) == Some(true)
                },
                Err(x) => x@ == ErrorModel::InternalError,
            },
    {
        match Self::check_password_length(req.password.as_str()) {
            Err(e) => {
                return Err(e);
            },
            Ok(()) => {},
        }
        if already_registered {
            return Err(AppError::ValidationError(String::from_str("Email or phone already registered")));
        }
        let password_hash = match hash_password(req.password.as_str()) {
            Some(h) => h,
            None => {
                return Err(AppError::InternalError);
            },
        };
        Ok(User {
            id: None,
            email: req.email,
            phone: req.phone,
            password_hash,
            full_name: req.full_name,
            role: String::from_str("customer"),
            created_at,
        })
    }

    /// Checks a password against the account found for the login name. A missing
    /// account and a wrong password give the same failure.
    pub fn login(found: Option<User>, password: &str) -> (r: Result<User, AppError>)
        ensures
            login_error(found, password@) matches Some(e) ==> (r matches Err(x) && x@ == e),
            login_error(found, password@) is None ==> r == Ok::<User, AppError>(found.unwrap()),
    {
        match found {
            None => Err(AppError::AuthError(String::from_str("Invalid credentials"))),
            Some(user) => match check_password(password, user.password_hash.as_str()) {
                Some(true) => Ok(user),
                Some(false) => Err(AppError::AuthError(String::from_str("Invalid credentials"))),
                None => Err(AppError::InternalError),
            },
        }
    }

    /// Issues a token for `user` at time `now`, valid for 24 hours.
    pub fn issue_token(user: &User, secret: &str, now: u64) -> (r: Result<String, AppError>)
        requires
            user.id.is_some(),
        ensures
            now > u64::MAX - TOKEN_LIFETIME_SECS ==> (r matches Err(e) && e@
                == ErrorModel::InternalError),
            now <= u64::MAX - TOKEN_LIFETIME_SECS ==> (r matches Ok(t) && hs256_token_of(
                claims_for(*user, now),
                secret@,
            ) == Some(t@)),
    {
        if now > u64::MAX - TOKEN_LIFETIME_SECS {
            return Err(AppError::InternalError);
        }
        let id = match &user.id {
            Some(id) => id.clone(),
            None => String::new(),
        };
        let claims = Claims {
            sub: id,
            email: user.email.clone(),
            role: user.role.clone(),
            exp: now + TOKEN_LIFETIME_SECS,
            iat: now,
        };
        match sign_claims(&claims, secret) {
            Some(t) => Ok(t),
            None => Err(AppError::InternalError),
        }
    }

    /// Issues a token for `user` at the current time, valid for 24 hours.
    pub fn generate_jwt(user: &User, secret: &str) -> (r: Result<String, AppError>)
        requires
            user.id.is_some(),
        ensures
            r matches Ok(t) ==> exists|now: u64|
                #![trigger claims_for(*user, now)]
                now <= u64::MAX - TOKEN_LIFETIME_SECS && hs256_token_of(claims_for(*user, now), secret@)
                    == Some(t@),
            r matches Err(e) ==> e@ == ErrorModel::InternalError,
    {
        let now = unix_seconds();
        Self::issue_token(user, secret, now)
    }

    /// Accepts a decoded payload unless it is missing or has expired at time `now`.
    pub fn check_expiry(decoded: Option<Claims>, now: u64) -> (r: Result<Claims, AppError>)
        ensures
            match expiry_outcome(decoded, now) {
                Ok(c) => r == Ok::<Claims, AppError>(c),
                Err(e) => r matches Err(x) && x@ == e,
            },
    {
        match decoded {
            None => Err(AppError::AuthError(String::from_str("Invalid token"))),
            Some(c) => {
                if c.exp < now {
                    Err(AppError::AuthError(String::from_str("Invalid token")))
                } else {
                    Ok(c)
                }
            },
        }
    }

    /// Verifies a token's signature and structure, then its expiry at time `now`.
    /// Every failure reads the same.
    pub fn verify_jwt_at(token: &str, secret: &str, now: u64) -> (r: Result<Claims, AppError>)
        ensures
            match token_outcome(token@, secret@, now) {
                Ok(f) => r matches Ok(c) && c.fields() == f,
                Err(e) => r matches Err(x) && x@ == e,
            },
            forall|c: (Seq<char>, Seq<char>, Seq<char>, u64, u64)|
                #[trigger] hs256_token_of(c, secret@) == Some(token@) && !expired(c.3, now) ==> (r matches Ok(
                    x,
                ) && x.fields() == c),
    {
        Self::check_expiry(decode_claims(token, secret), now)
    }

    /// Verifies a token at the current time.
    pub fn verify_jwt(token: &str, secret: &str) -> (r: Result<Claims, AppError>)
        ensures
            r matches Ok(c) ==> hs256_claims_of(token@, secret@) == Some(c.fields()),
            hs256_claims_of(token@, secret@) is None ==> (r matches Err(e) && e@ == invalid_token()),
            r matches Err(e) ==> e@ == invalid_token(),
    {
        let now = unix_seconds();
        Self::verify_jwt_at(token, secret, now)
    }

    /// What a client sees of a stored account.
    pub fn user_to_response(user: &User) -> (r: UserResponse)
        requires
            user.id.is_some(),
        ensures
            r.id@ == user.id.unwrap()@,
            r.email@ == user.email@,
            opt_view(r.full_name) == opt_view(user.full_name),
            r.role@ == user.role@,
    {
        let id = match &user.id {
            Some(id) => id.clone(),
            None => String::new(),
        };
        let full_name = match &user.full_name {
            Some(n) => Some(n.clone()),
            None => None,
        };
        UserResponse { id, email: user.email.clone(), full_name, role: user.role.clone() }
    }
}

/// Once an account with some email is stored, the lookup of a registration with
/// that email finds it, and that registration is refused with a validation error.
pub proof fn lemma_duplicate_email_refused(req: RegisterRequest, stored: User)
    requires
        stored.email@ == req.email@,
    ensures
        lookup_admits(req.email@, registration_phone(opt_view(req.phone)), stored),
        registration_error(req.password@, true) matches Some(ErrorModel::ValidationError(_)),
{
}

/// A password shorter than eight characters is refused, whether or not the email or
/// phone is already taken.
pub proof fn lemma_short_password_refused(password: Seq<char>, already_registered: bool)
    requires
        password_too_short(password),
    ensures
        registration_error(password, already_registered) == Some(
            ErrorModel::ValidationError("Password must be at least 8 characters"@),
        ),
{
}

/// A wrong password for an existing account fails exactly as a login for an
/// account that does not exist.
pub proof fn lemma_login_failures_alike(
    user: User,
    wrong_password: Seq<char>,
    any_password: Seq<char>,
)
    requires
        bcrypt_check_of(wrong_password, user.password_hash@) == Some(false),
    ensures
        login_error(Some(user), wrong_password) == login_error(None, any_password),
        login_error(None, any_password) == Some(invalid_credentials()),
{
}

/// A token issued for `user` at time `issued` verifies under the same secret, to
/// the user's own claims, at every time up to its 24 hours of validity.
pub proof fn lemma_fresh_token_accepted(
    user: User,
    secret: Seq<char>,
    issued: u64,
    token: Seq<char>,
    at: u64,
)
    requires
        user.id.is_some(),
        issued <= u64::MAX - TOKEN_LIFETIME_SECS,
        hs256_token_of(claims_for(user, issued), secret) == Some(token),
        hs256_claims_of(token, secret) == Some(claims_for(user, issued)),
        at <= issued + TOKEN_LIFETIME_SECS,
    ensures
        token_outcome(token, secret, at) == Ok::<_, ErrorModel>(claims_for(user, issued)),
{
}

/// A token whose expiry lies in the past fails, whatever else it carries.
pub proof fn lemma_expired_token_refused(token: Seq<char>, secret: Seq<char>, now: u64)
    requires
        hs256_claims_of(token, secret) matches Some(f) && expired(f.3, now),
    ensures
        token_outcome(token, secret, now) == Err::<(Seq<char>, Seq<char>, Seq<char>, u64, u64), ErrorModel>(
            invalid_token(),
        ),
{
}

} // verus!
