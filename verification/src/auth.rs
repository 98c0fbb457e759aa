//! The authentication service: registration, login, token issuance and
//! verification, and the idempotent bootstrap of the fixed admin
//! accounts. Tokens are verified against an explicit clock so that
//! expiry is part of the verified logic.

use vstd::prelude::*;

use crate::catalog::{find_first, find_idx, lemma_find_idx_here, lemma_find_idx_none};
use crate::crypto::{
    decode_token, hash_matches, hash_password, sign_token, token_claims, verify_password,
};
use crate::error::ApiError;
use crate::ids::fresh_id;
use crate::models::{
    lemma_role_round_trip, parse_role, role_of_str, role_str, AuthResponse, Claims, ClaimsV,
    LoginRequest, RegisterRequest, Role, User, UserV,
};
use crate::strutil::str_eq;

verus! {

/// How long an issued token stays valid.
pub const TOKEN_TTL_SECS: u64 = 24 * 60 * 60;

/// Whether a user record carries this email.
pub open spec fn user_with_email(email: Seq<char>) -> spec_fn(UserV) -> bool {
    |u: UserV| u.email == email
}

/// Whether a user record carries this id.
pub open spec fn user_with_id(id: Seq<char>) -> spec_fn(UserV) -> bool {
    |u: UserV| u.id == id
}

/// The first user with this email, if any.
pub open spec fn find_user_by_email(users: Seq<UserV>, email: Seq<char>) -> Option<UserV> {
    find_first(users, user_with_email(email))
}

/// Whether some user already carries this email.
pub open spec fn email_taken(users: Seq<UserV>, email: Seq<char>) -> bool {
    find_user_by_email(users, email) is Some
}

/// Appending an element that satisfies `p` makes a first match exist.
pub proof fn lemma_find_push_some<T>(s: Seq<T>, p: spec_fn(T) -> bool, x: T)
    requires
        p(x),
    ensures
        find_idx(s.push(x), p) >= 0,
    decreases s.len(),
{
    let t = s.push(x);
    if s.len() == 0 {
        assert(t[0] == x);
    } else if !p(t[0]) {
        assert(t.drop_first() =~= s.drop_first().push(x));
        lemma_find_push_some(s.drop_first(), p, x);
    }
}

/// Appending an element that does not satisfy `p` leaves the first
/// match unchanged.
pub proof fn lemma_find_push_other<T>(s: Seq<T>, p: spec_fn(T) -> bool, x: T)
    requires
        !p(x),
    ensures
        find_idx(s.push(x), p) == find_idx(s, p),
    decreases s.len(),
{
    let t = s.push(x);
    if s.len() == 0 {
        assert(t.len() == 1);
        assert(t[0] == x);
        assert(!p(t[0]));
        assert(t.drop_first() =~= Seq::<T>::empty());
        assert(find_idx(t.drop_first(), p) == -1);
    } else if p(t[0]) {
        assert(t[0] == s[0]);
    } else {
        assert(t[0] == s[0]);
        assert(t.drop_first() =~= s.drop_first().push(x));
        lemma_find_push_other(s.drop_first(), p, x);
    }
}

/// Registering an email makes it taken: a second registration of the
/// same email finds the account and must fail with `AlreadyExists`.
pub proof fn lemma_register_uniqueness(users: Seq<UserV>, u: UserV, email: Seq<char>)
    requires
        u.email == email,
    ensures
        email_taken(users.push(u), email),
{
    lemma_find_push_some(users, user_with_email(email), u);
}

/// The exact outcome of verifying `token` under `secret` at time `now`:
/// the decoded claims when the signature is valid, the role is known and
/// the token has not expired; `Unauthorized` otherwise.
pub open spec fn verify_outcome(secret: Seq<char>, token: Seq<char>, now: u64) -> Result<
    ClaimsV,
    ApiError,
> {
    match token_claims(token, secret) {
        None => Err(ApiError::Unauthorized),
        Some(c) => match role_of_str(c.1) {
            None => Err(ApiError::Unauthorized),
            Some(role) => if now >= c.3 {
                Err(ApiError::Unauthorized)
            } else {
                Ok(ClaimsV { sub: c.0, exp: c.3, iat: c.2, role })
            },
        },
    }
}

/// The token lifecycle: a token carrying the claims that issuance signs
/// verifies to exactly those claims while the clock is before its
/// expiry, and is rejected as `Unauthorized` from its expiry on. Any
/// token whose signature does not check has no claims and is rejected.
pub proof fn lemma_token_lifecycle(
    secret: Seq<char>,
    token: Seq<char>,
    sub: Seq<char>,
    role: Role,
    iat: u64,
    exp: u64,
    now: u64,
)
    requires
        token_claims(token, secret) == Some((sub, role_str(role), iat, exp)),
    ensures
        now < exp ==> verify_outcome(secret, token, now) == Ok::<ClaimsV, ApiError>(
            ClaimsV { sub, exp, iat, role },
        ),
        now >= exp ==> verify_outcome(secret, token, now) == Err::<ClaimsV, ApiError>(
            ApiError::Unauthorized,
        ),
{
    lemma_role_round_trip(role);
}

/// A token that decodes to no claims under the secret is rejected,
/// whatever the clock says.
pub proof fn lemma_invalid_token_rejected(secret: Seq<char>, token: Seq<char>, now: u64)
    requires
        token_claims(token, secret) is None,
    ensures
        verify_outcome(secret, token, now) == Err::<ClaimsV, ApiError>(ApiError::Unauthorized),
{
}

/// A bootstrap admin account for `email` with the fixed `password`.
pub open spec fn bootstrap_admin(u: UserV, email: Seq<char>, password: Seq<char>, now: u64) -> bool {
    &&& u.email == email
    &&& u.role == Role::Admin
    &&& hash_matches(password, u.password)
    &&& u.id.len() == 36
    &&& u.created_at == now
}

/// The store of registered users together with the token-signing secret.
pub struct AuthService {
    pub users: Vec<User>,
    pub jwt_secret: String,
}

pub struct AuthServiceV {
    pub users: Seq<UserV>,
    pub jwt_secret: Seq<char>,
}

impl View for AuthService {
    type V = AuthServiceV;

    open spec fn view(&self) -> AuthServiceV {
        AuthServiceV { users: self.users.deep_view(), jwt_secret: self.jwt_secret@ }
    }
}

impl AuthService {
    /// A service with no users yet, signing tokens with `jwt_secret`.
    pub fn new(jwt_secret: String) -> (r: Self)
        ensures
            r@.users == Seq::<UserV>::empty(),
            r@.jwt_secret == jwt_secret@,
    {
        let r = AuthService { users: Vec::new(), jwt_secret };
        assert(r@.users =~= Seq::<UserV>::empty());
        r
    }

    /// Whether some user already carries `email`.
    fn email_exists(&self, email: &str) -> (r: bool)
        ensures
            r == email_taken(self@.users, email@),
    {
        let ghost p = user_with_email(email@);
        let mut i: usize = 0;
        while i < self.users.len()
            invariant
                i <= self.users.len(),
                forall|j: int| 0 <= j < i ==> !p(#[trigger] self@.users[j]),
                p == user_with_email(email@),
            decreases self.users.len() - i,
        {
            if str_eq(self.users[i].email.as_str(), email) {
                proof {
                    lemma_find_idx_here(self@.users, p, i as int);
                }
                return true;
            }
            i = i + 1;
        }
        proof {
            lemma_find_idx_none(self@.users, p);
        }
        false
    }

    /// The first user with `email`, if any.
    fn find_by_email(&self, email: &str) -> (r: Option<User>)
        ensures
            r.deep_view() == find_user_by_email(self@.users, email@),
    {
        let ghost p = user_with_email(email@);
        let mut i: usize = 0;
        while i < self.users.len()
            invariant
                i <= self.users.len(),
                forall|j: int| 0 <= j < i ==> !p(#[trigger] self@.users[j]),
                p == user_with_email(email@),
            decreases self.users.len() - i,
        {
            if str_eq(self.users[i].email.as_str(), email) {
                proof {
                    lemma_find_idx_here(self@.users, p, i as int);
                }
                return Some(self.users[i].clone());
            }
            i = i + 1;
        }
        proof {
            lemma_find_idx_none(self@.users, p);
        }
        None
    }

    /// The user the claim subject denotes, if still present.
    pub fn get_user_by_id(&self, user_id: &str) -> (r: Option<User>)
        ensures
            r.deep_view() == find_first(self@.users, user_with_id(user_id@)),
    {
        let ghost p = user_with_id(user_id@);
        let mut i: usize = 0;
        while i < self.users.len()
            invariant
                i <= self.users.len(),
                forall|j: int| 0 <= j < i ==> !p(#[trigger] self@.users[j]),
                p == user_with_id(user_id@),
            decreases self.users.len() - i,
        {
            if str_eq(self.users[i].id.as_str(), user_id) {
                proof {
                    lemma_find_idx_here(self@.users, p, i as int);
                }
                return Some(self.users[i].clone());
            }
            i = i + 1;
        }
        proof {
            lemma_find_idx_none(self@.users, p);
        }
        None
    }

    /// Sign a session token for `user`, valid from `now` for
    /// `TOKEN_TTL_SECS`. Signing always succeeds.
    pub fn issue_token(&self, user: &User, now: u64) -> (r: Result<String, ApiError>)
        requires
            now + TOKEN_TTL_SECS <= u64::MAX,
        ensures
            r is Ok,
            r matches Ok(t) ==> token_claims(t@, self@.jwt_secret) == Some(
                (user@.id, role_str(user@.role), now, (now + TOKEN_TTL_SECS) as u64),
            ),
    {
        let exp = now + TOKEN_TTL_SECS;
        match sign_token(user.id.as_str(), user.role.as_str(), now, exp, self.jwt_secret.as_str()) {
            Some(t) => Ok(t),
            None => Err(ApiError::DataAccessError),
        }
    }

    /// Register a new account: fails with `AlreadyExists` when the email
    /// is taken; otherwise hashes the password, stores the account with
    /// role `user`, and returns it with a fresh session token.
    pub fn register(&mut self, req: RegisterRequest, now: u64) -> (r: Result<
        AuthResponse,
        ApiError,
    >)
        requires
            now + TOKEN_TTL_SECS <= u64::MAX,
        ensures
            final(self)@.jwt_secret == old(self)@.jwt_secret,
            email_taken(old(self)@.users, req.email@) ==> r == Err::<AuthResponse, ApiError>(
                ApiError::AlreadyExists,
            ) && final(self)@ == old(self)@,
            !email_taken(old(self)@.users, req.email@) ==> (r matches Ok(resp) ==> {
                &&& final(self)@.users == old(self)@.users.push(resp.user@)
                &&& resp.user@.email == req.email@
                &&& resp.user@.name == req.name@
                &&& resp.user@.role == Role::User
                &&& resp.user@.created_at == now
                &&& resp.user@.id.len() == 36
                &&& hash_matches(req.password@, resp.user@.password)
                &&& token_claims(resp.token@, old(self)@.jwt_secret) == Some(
                    (resp.user@.id, role_str(Role::User), now, (now + TOKEN_TTL_SECS) as u64),
                )
            }),
            !email_taken(old(self)@.users, req.email@) ==> (r matches Err(e) ==> e
                == ApiError::DataAccessError && final(self)@ == old(self)@),
    {
        if self.email_exists(req.email.as_str()) {
            return Err(ApiError::AlreadyExists);
        }
        let hashed = match hash_password(req.password.as_str()) {
            Some(h) => h,
            None => {
                return Err(ApiError::DataAccessError);
            },
        };
        let user = User {
            id: fresh_id(),
            email: req.email,
            password: hashed,
            name: req.name,
            role: Role::User,
            created_at: now,
        };
        let token = match self.issue_token(&user, now) {
            Ok(t) => t,
            Err(e) => {
                return Err(e);
            },
        };
        let ghost uv = user@;
        let user_copy = user.clone();
        self.users.push(user);
        assert(self@.users =~= old(self)@.users.push(uv));
        Ok(AuthResponse { token, user: user_copy })
    }

    /// Log in: succeeds exactly when a user with this email exists and
    /// the password matches its hash; both "no such user" and "wrong
    /// password" yield the same `InvalidCredentials`.
    pub fn login(&self, req: LoginRequest, now: u64) -> (r: Result<AuthResponse, ApiError>)
        requires
            now + TOKEN_TTL_SECS <= u64::MAX,
        ensures
            match find_user_by_email(self@.users, req.email@) {
                None => r == Err::<AuthResponse, ApiError>(ApiError::InvalidCredentials),
                Some(u) => if !hash_matches(req.password@, u.password) {
                    r == Err::<AuthResponse, ApiError>(ApiError::InvalidCredentials)
                } else {
                    r matches Ok(resp) && resp.user@ == u && token_claims(
                        resp.token@,
                        self@.jwt_secret,
                    ) == Some((u.id, role_str(u.role), now, (now + TOKEN_TTL_SECS) as u64))
                },
            },
    {
        let user = match self.find_by_email(req.email.as_str()) {
            Some(u) => u,
            None => {
                return Err(ApiError::InvalidCredentials);
            },
        };
        if !verify_password(req.password.as_str(), user.password.as_str()) {
            return Err(ApiError::InvalidCredentials);
        }
        let token = match self.issue_token(&user, now) {
            Ok(t) => t,
            Err(e) => {
                return Err(e);
            },
        };
        Ok(AuthResponse { token, user })
    }

    /// Decode and check a presented token against the signing secret and
    /// the clock; the outcome is exactly `verify_outcome`.
    pub fn verify_token(&self, token: &str, now: u64) -> (r: Result<Claims, ApiError>)
        ensures
            r matches Ok(c) ==> verify_outcome(self@.jwt_secret, token@, now) == Ok::<
                ClaimsV,
                ApiError,
            >(c@),
            r matches Err(e) ==> verify_outcome(self@.jwt_secret, token@, now) == Err::<
                ClaimsV,
                ApiError,
            >(e),
    {
        match decode_token(token, self.jwt_secret.as_str()) {
            None => Err(ApiError::Unauthorized),
            Some((sub, role_s, iat, exp)) => {
                match parse_role(role_s.as_str()) {
                    None => Err(ApiError::Unauthorized),
                    Some(role) => {
                        if now >= exp {
                            Err(ApiError::Unauthorized)
                        } else {
                            Ok(Claims { sub, exp, iat, role })
                        }
                    },
                }
            },
        }
    }

    /// Idempotently ensure the two fixed bootstrap admin accounts exist,
    /// creating each with its fixed password only when no user carries
    /// its email yet. When both accounts already exist nothing is called
    /// and the call succeeds with the store untouched; a failure can
    /// come only from password hashing, and then at most the first
    /// account has been added.
    pub fn seed_admin_user(&mut self, now: u64) -> (r: Result<(), ApiError>)
        ensures
            final(self)@.jwt_secret == old(self)@.jwt_secret,
            email_taken(old(self)@.users, "admin@cyborgtech.com"@) && email_taken(
                old(self)@.users,
                "melanie@cyborgtech.com"@,
            ) ==> r == Ok::<(), ApiError>(()) && final(self)@ == old(self)@,
            r matches Ok(_) ==> email_taken(final(self)@.users, "admin@cyborgtech.com"@)
                && email_taken(final(self)@.users, "melanie@cyborgtech.com"@),
            r matches Ok(_) ==> ({
                let taken1 = email_taken(old(self)@.users, "admin@cyborgtech.com"@);
                let taken2 = email_taken(old(self)@.users, "melanie@cyborgtech.com"@);
                if taken1 && taken2 {
                    final(self)@ == old(self)@
                } else if !taken1 && taken2 {
                    exists|a: UserV|
                        bootstrap_admin(a, "admin@cyborgtech.com"@, "admin123"@, now)
                            && final(self)@.users == old(self)@.users.push(a)
                } else if taken1 && !taken2 {
                    exists|m: UserV|
                        bootstrap_admin(m, "melanie@cyborgtech.com"@, "melanie"@, now)
                            && final(self)@.users == old(self)@.users.push(m)
                } else {
                    exists|a: UserV, m: UserV|
                        bootstrap_admin(a, "admin@cyborgtech.com"@, "admin123"@, now)
                            && bootstrap_admin(m, "melanie@cyborgtech.com"@, "melanie"@, now)
                            && final(self)@.users == old(self)@.users.push(a).push(m)
                }
            }),
            r matches Err(e) ==> ({
                &&& e == ApiError::DataAccessError
                &&& (final(self)@.users == old(self)@.users || (exists|a: UserV|
                    bootstrap_admin(a, "admin@cyborgtech.com"@, "admin123"@, now)
                        && final(self)@.users == old(self)@.users.push(a)))
            }),
    {
        proof {
            reveal_strlit("admin@cyborgtech.com");
            reveal_strlit("melanie@cyborgtech.com");
            assert("admin@cyborgtech.com"@.len() == 20);
            assert("melanie@cyborgtech.com"@.len() == 22);
        }
        if !self.email_exists("admin@cyborgtech.com") {
            let hashed = match hash_password("admin123") {
                Some(h) => h,
                None => {
                    return Err(ApiError::DataAccessError);
                },
            };
            let admin = User {
                id: fresh_id(),
                email: "admin@cyborgtech.com".to_owned(),
                password: hashed,
                name: "Admin".to_owned(),
                role: Role::Admin,
                created_at: now,
            };
            let ghost av = admin@;
            self.users.push(admin);
            assert(self@.users =~= old(self)@.users.push(av));
            proof {
                assert(bootstrap_admin(av, "admin@cyborgtech.com"@, "admin123"@, now));
                lemma_find_push_some(old(self)@.users, user_with_email("admin@cyborgtech.com"@), av);
                assert(!(user_with_email("melanie@cyborgtech.com"@)(av)));
                lemma_find_push_other(
                    old(self)@.users,
                    user_with_email("melanie@cyborgtech.com"@),
                    av,
                );
            }
        }
        assert(email_taken(self@.users, "admin@cyborgtech.com"@));
        let ghost mid = self@.users;
        if !self.email_exists("melanie@cyborgtech.com") {
            let hashed = match hash_password("melanie") {
                Some(h) => h,
                None => {
                    return Err(ApiError::DataAccessError);
                },
            };
            let melanie = User {
                id: fresh_id(),
                email: "melanie@cyborgtech.com".to_owned(),
                password: hashed,
                name: "Melanie".to_owned(),
                role: Role::Admin,
                created_at: now,
            };
            let ghost mv = melanie@;
            self.users.push(melanie);
            assert(self@.users =~= mid.push(mv));
            proof {
                assert(bootstrap_admin(mv, "melanie@cyborgtech.com"@, "melanie"@, now));
                lemma_find_push_some(mid, user_with_email("melanie@cyborgtech.com"@), mv);
                assert(!(user_with_email("admin@cyborgtech.com"@)(mv)));
                lemma_find_push_other(mid, user_with_email("admin@cyborgtech.com"@), mv);
            }
        }
        assert(email_taken(self@.users, "admin@cyborgtech.com"@));
        assert(email_taken(self@.users, "melanie@cyborgtech.com"@));
        Ok(())
    }
}

} // verus!
