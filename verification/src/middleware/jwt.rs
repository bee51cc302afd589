//! Bearer-token authorization of requests.

use crate::config::JwtConfig;
use crate::handlers::auth::{authentication, issued_token, registered_password_authenticates, secret_bytes, token_expiration};
use crate::handlers::user::{registers, InputUser};
use crate::errors::ApiError;
use crate::models::{NewUser, User};
use crate::token::{is_token_char, jwt_claims, jwt_decode, utc_now_timestamp, utf8_str};
use vstd::prelude::*;
use vstd::utf8::{encode_utf8, is_ascii_chars, is_ascii_chars_encode_utf8, valid_utf8};

verus! {

/// Claims of an issued token: the subject (the user's email) and the expiration
/// time in seconds since the epoch.
pub struct Claims {
    pub sub: String,
    pub exp: u64,
}

/// Seconds a token is still accepted after its expiration time (the default
/// leeway of `jsonwebtoken::Validation`).
pub const LEEWAY: u64 = 60;

/// Seconds a token is still accepted after its expiration time.
pub open spec fn leeway() -> int {
    LEEWAY as int
}

/// A byte that a header value may hold and still read as a string: visible
/// ASCII or a tab.
pub open spec fn is_visible_ascii(b: u8) -> bool {
    (32 <= b && b < 127) || b == 9
}

/// The bytes of `Bearer ` (with its trailing space).
pub open spec fn bearer_prefix() -> Seq<u8> {
    seq![66u8, 101u8, 97u8, 114u8, 101u8, 114u8, 32u8]
}

/// The token carried by an `Authorization` header value: the value must read as
/// a string (visible ASCII and tabs only) and start with `Bearer `; the token is
/// what follows.
pub open spec fn bearer_token(header: Seq<u8>) -> Option<Seq<u8>> {
    if (forall|i: int| 0 <= i < header.len() ==> #[trigger] is_visible_ascii(header[i]))
        && header.len() >= 7 && header.take(7) == bearer_prefix() {
        Some(header.skip(7))
    } else {
        None
    }
}

/// A token expiring at `exp` is still accepted at `now`.
pub open spec fn token_live(exp: u64, now: i64) -> bool {
    now <= exp + leeway()
}

/// Whether a request whose `Authorization` header is `header` (`None` when it has
/// none) is let through at time `now`, with the signing secret `secret`: the
/// header carries a bearer token that decodes with the secret and has not expired.
pub open spec fn accepts(header: Option<Seq<u8>>, secret: Seq<u8>, now: i64) -> bool {
    match header {
        None => false,
        Some(h) => match bearer_token(h) {
            None => false,
            Some(t) => match jwt_claims(t, secret) {
                Some((_, exp)) => token_live(exp, now),
                None => false,
            },
        },
    }
}

/// Plain view of an optional header value.
pub open spec fn header_view(header: Option<&[u8]>) -> Option<Seq<u8>> {
    match header {
        Some(h) => Some(h@),
        None => None,
    }
}

/// Authorization layer: lets requests through when they carry a valid bearer token.
pub struct JwtMiddleware {
    pub jwt_config: &'static JwtConfig,
}

/// Authorization layer wrapped around a service.
pub struct JwtMiddlewareService<S> {
    service: S,
    jwt_cfg: &'static JwtConfig,
}

impl JwtMiddleware {
    /// Wraps `service` in this authorization layer.
    pub fn new_transform<S>(&self, service: S) -> (r: JwtMiddlewareService<S>)
        ensures
            r.wrapped() == service,
            r.config() == *self.jwt_config,
    {
        JwtMiddlewareService { service, jwt_cfg: self.jwt_config }
    }
}

/// Visible ASCII bytes are valid UTF-8.
proof fn lemma_visible_ascii_is_utf8(bytes: Seq<u8>)
    requires
        forall|i: int| 0 <= i < bytes.len() ==> #[trigger] is_visible_ascii(bytes[i]),
    ensures
        valid_utf8(bytes),
{
    broadcast use vstd::utf8::partial_valid_utf8_extend_ascii_block;

    assert(bytes.subrange(0, 0) =~= Seq::<u8>::empty());
    assert(vstd::utf8::partial_valid_utf8(bytes, 0));
    assert forall|i: int| 0 <= i < bytes.len() implies
        #[trigger] vstd::utf8::is_leading_byte_width_1(bytes[i]) by {
        assert(is_visible_ascii(bytes[i]));
    }
    vstd::utf8::partial_valid_utf8_extend_ascii_block(bytes, 0, bytes.len() as int);
    assert(bytes.subrange(0, bytes.len() as int) =~= bytes);
}

fn all_visible_ascii(bytes: &[u8]) -> (b: bool)
    ensures
        b == forall|i: int| 0 <= i < bytes@.len() ==> #[trigger] is_visible_ascii(bytes@[i]),
{
    let mut i: usize = 0;
    while i < bytes.len()
        invariant
            i <= bytes@.len(),
            forall|j: int| 0 <= j < i ==> #[trigger] is_visible_ascii(bytes@[j]),
        decreases bytes@.len() - i,
    {
        let b = bytes[i];
        if !((32 <= b && b < 127) || b == 9) {
            assert(!is_visible_ascii(bytes@[i as int]));
            return false;
        }
        i = i + 1;
    }
    true
}

fn has_bearer_prefix(bytes: &[u8]) -> (b: bool)
    ensures
        b == (bytes@.len() >= 7 && bytes@.take(7) == bearer_prefix()),
{
    if bytes.len() < 7 {
        return false;
    }
    let r = bytes[0] == 66 && bytes[1] == 101 && bytes[2] == 97 && bytes[3] == 114
        && bytes[4] == 101 && bytes[5] == 114 && bytes[6] == 32;
    proof {
        if r {
            assert(bytes@.take(7) =~= bearer_prefix());
        } else {
            if bytes@.take(7) == bearer_prefix() {
                assert(bytes@.take(7)[0] == 66u8);
                assert(bytes@.take(7)[1] == 101u8);
                assert(bytes@.take(7)[2] == 97u8);
                assert(bytes@.take(7)[3] == 114u8);
                assert(bytes@.take(7)[4] == 101u8);
                assert(bytes@.take(7)[5] == 114u8);
                assert(bytes@.take(7)[6] == 32u8);
            }
        }
    }
    r
}

impl<S> JwtMiddlewareService<S> {
    /// The wrapped service.
    pub closed spec fn wrapped(&self) -> S {
        self.service
    }

    /// The token settings this layer checks tokens with.
    pub closed spec fn config(&self) -> JwtConfig {
        *self.jwt_cfg
    }

    /// The wrapped service.
    pub fn service(&self) -> (r: &S)
        ensures
            *r == self.wrapped(),
    {
        &self.service
    }

    /// Whether a request with `Authorization` header `auth_header` (`None` when it
    /// has none) is let through at time `now` (seconds since the epoch).
    pub fn authorize_at(&self, auth_header: Option<&[u8]>, now: i64) -> (b: bool)
        ensures
            b == accepts(header_view(auth_header), secret_bytes(self.config()), now),
            b == accepts(header_view(auth_header), encode_utf8(self.config().secret@), now),
    {
        let header = match auth_header {
            Some(h) => h,
            None => return false,
        };
        if !all_visible_ascii(header) || !has_bearer_prefix(header) {
            return false;
        }
        let token_bytes = vstd::slice::slice_subrange(header, 7, header.len());
        proof {
            assert(token_bytes@ =~= header@.skip(7));
            lemma_visible_ascii_is_utf8(token_bytes@);
        }
        let token = match utf8_str(token_bytes) {
            Some(t) => t,
            None => return false,
        };
        let secret = self.jwt_cfg.secret.as_str().as_bytes();
        match jwt_decode(token, secret) {
            Some(claims) => now as i128 <= claims.exp as i128 + LEEWAY as i128,
            None => false,
        }
    }

    /// Whether a request with `Authorization` header `auth_header` (`None` when it
    /// has none) is let through now, by the system clock.
    pub fn authorize(&self, auth_header: Option<&[u8]>) -> (b: bool)
        ensures
            exists|now: i64| b == #[trigger] accepts(header_view(auth_header), secret_bytes(self.config()), now)
                && b == accepts(header_view(auth_header), encode_utf8(self.config().secret@), now),
    {
        let now = utc_now_timestamp();
        let b = self.authorize_at(auth_header, now);
        proof {
            assert(b == accepts(header_view(auth_header), secret_bytes(self.config()), now));
        }
        b
    }
}

/// A token the library issued is let through, in an `Authorization: Bearer`
/// header, exactly until a minute after its expiration time.
pub proof fn issued_token_accepted_until_expiry(
    token: Seq<char>,
    sub: Seq<char>,
    exp: u64,
    secret: Seq<u8>,
    now: i64,
)
    requires
        issued_token(token, sub, exp, secret),
    ensures
        accepts(Some(bearer_prefix() + encode_utf8(token)), secret, now) <==> token_live(exp, now),
        accepts(Some(bearer_prefix() + encode_utf8(token)), secret, now) <==> now <= exp + 60,
{
    assert(is_ascii_chars(token)) by {
        assert forall|i: int| 0 <= i < token.len() implies '\0' <= #[trigger] token[i] <= '\u{7f}' by {
            assert(is_token_char(token[i]));
        }
    }
    is_ascii_chars_encode_utf8(token);
    let bytes = encode_utf8(token);
    let h = bearer_prefix() + bytes;
    assert forall|i: int| 0 <= i < h.len() implies #[trigger] is_visible_ascii(h[i]) by {
        if i >= 7 {
            assert(h[i] == bytes[i - 7]);
            assert(is_token_char(token[i - 7]));
        }
    }
    assert(h.take(7) =~= bearer_prefix());
    assert(h.skip(7) =~= bytes);
}

/// A token issued at `issued_at` is let through exactly until 86460 seconds later: a
/// day of life and a minute of leeway.
pub proof fn issued_token_lives_a_day_and_a_minute(
    token: Seq<char>,
    sub: Seq<char>,
    issued_at: i64,
    secret: Seq<u8>,
    now: i64,
)
    requires
        issued_token(token, sub, token_expiration(issued_at), secret),
        0 <= issued_at + 86400,
    ensures
        accepts(Some(bearer_prefix() + encode_utf8(token)), secret, now) <==> now <= issued_at + 86460,
{
    issued_token_accepted_until_expiry(token, sub, token_expiration(issued_at), secret, now);
}

/// A user who registered, logs in with the password they registered with, and gets a
/// token issued at `issued_at`, is let through with that token until a minute after
/// the token expires, a day after `issued_at`.
pub proof fn registered_user_is_let_through(
    item: InputUser,
    new_user: NewUser,
    stored: User,
    token: Seq<char>,
    issued_at: i64,
    secret: Seq<u8>,
    now: i64,
)
    requires
        registers(item, new_user),
        stored.hashed_password@ == new_user.hashed_password@,
        issued_token(token, stored.email@, token_expiration(issued_at), secret),
        now <= token_expiration(issued_at) + leeway(),
    ensures
        authentication(Some(stored), item.password@) == Ok::<User, ApiError>(stored),
        accepts(Some(bearer_prefix() + encode_utf8(token)), secret, now),
{
    registered_password_authenticates(item, new_user, stored);
    issued_token_accepted_until_expiry(token, stored.email@, token_expiration(issued_at), secret, now);
}

} // verus!
