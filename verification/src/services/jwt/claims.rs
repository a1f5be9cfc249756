//! The claim set of an access token and its JSON payload.

use vstd::prelude::*;
use vstd::string::StringExecFns;
use crate::clock::{now, Timestamp, MAX_CLOCK_SECONDS};
use crate::identifiers::{is_random_uuid, new_token_id, user_id_text, uuid_text};
use crate::json::{
    decimal, json_string, json_string_array, push_decimal, push_json_string,
    push_json_string_array,
};
use crate::models::users::{User, UserView};

verus! {

/// The longest time to live for which [`RegisteredClaims::new`] can always
/// compute the expiry.
pub const MAX_SECONDS_TO_EXPIRATION: i64 = i64::MAX - MAX_CLOCK_SECONDS;

/// Seconds since the Unix epoch as a claim holds them.
pub open spec fn claim_seconds(seconds: int) -> usize {
    seconds as usize
}

/// The registered claims of an access token.
#[derive(Debug)]
pub struct RegisteredClaims {
    /// Issuer.
    pub iss: String,
    /// Expiration time, in seconds since the Unix epoch.
    pub exp: usize,
    /// Not before, in seconds since the Unix epoch.
    pub nbf: usize,
    /// Issued at, in seconds since the Unix epoch.
    pub iat: usize,
    /// The token's unique identifier.
    pub jti: String,
}

/// The full claim set of an access token.
#[derive(Debug)]
pub struct Claims {
    pub registered_claims: RegisteredClaims,
    pub user_id: String,
    pub roles: Vec<String>,
}

/// Registered claims as specifications see them.
pub ghost struct RegisteredClaimsView {
    pub iss: Seq<char>,
    pub exp: usize,
    pub nbf: usize,
    pub iat: usize,
    pub jti: Seq<char>,
}

/// A claim set as specifications see it.
pub ghost struct ClaimsView {
    pub registered_claims: RegisteredClaimsView,
    pub user_id: Seq<char>,
    pub roles: Seq<Seq<char>>,
}

impl View for RegisteredClaims {
    type V = RegisteredClaimsView;

    open spec fn view(&self) -> RegisteredClaimsView {
        RegisteredClaimsView {
            iss: self.iss@,
            exp: self.exp,
            nbf: self.nbf,
            iat: self.iat,
            jti: self.jti@,
        }
    }
}

impl View for Claims {
    type V = ClaimsView;

    open spec fn view(&self) -> ClaimsView {
        ClaimsView {
            registered_claims: self.registered_claims@,
            user_id: self.user_id@,
            roles: self.roles.deep_view(),
        }
    }
}

impl RegisteredClaimsView {
    /// The claims of a token that `iss` issued at `issued`, to live for
    /// `seconds_to_expiration`: valid from the second of issue, expiring
    /// that many seconds later.
    pub open spec fn is_issued_at(self, iss: Seq<char>, issued: int, seconds_to_expiration: i64)
        -> bool {
        &&& self.iss == iss
        &&& self.iat == claim_seconds(issued)
        &&& self.nbf == claim_seconds(issued)
        &&& self.exp == claim_seconds(issued + seconds_to_expiration)
    }

    /// The claims of a token that `iss` issued at some time that the clock
    /// can show, to live for `seconds_to_expiration`, under the text of a
    /// random UUID for an identifier.
    pub open spec fn is_fresh(self, iss: Seq<char>, seconds_to_expiration: i64) -> bool {
        &&& exists|issued: int|
            0 <= issued <= MAX_CLOCK_SECONDS && #[trigger] self.is_issued_at(
                iss,
                issued,
                seconds_to_expiration,
            )
        &&& exists|id: u128| is_random_uuid(id) && self.jti == #[trigger] uuid_text(id)
    }
}

/// The JSON payload of a claim set: one object, its fields in the order
/// `iss`, `exp`, `nbf`, `iat`, `jti`, `user_id`, `roles`, without spaces.
pub open spec fn claims_json(claims: ClaimsView) -> Seq<char> {
    "{\"iss\":"@ + json_string(claims.registered_claims.iss)
        + ",\"exp\":"@ + decimal(claims.registered_claims.exp as nat)
        + ",\"nbf\":"@ + decimal(claims.registered_claims.nbf as nat)
        + ",\"iat\":"@ + decimal(claims.registered_claims.iat as nat)
        + ",\"jti\":"@ + json_string(claims.registered_claims.jti)
        + ",\"user_id\":"@ + json_string(claims.user_id)
        + ",\"roles\":"@ + json_string_array(claims.roles)
        + "}"@
}

impl RegisteredClaims {
    /// The registered claims of a token issued by `iss` at `issued`, living
    /// for `seconds_to_expiration`, and identified by `jti`.
    pub fn at(iss: &str, issued: Timestamp, seconds_to_expiration: i64, jti: String) -> (claims:
        RegisteredClaims)
        requires
            i64::MIN <= issued.secs + seconds_to_expiration <= i64::MAX,
        ensures
            claims@.is_issued_at(iss@, issued.secs as int, seconds_to_expiration),
            claims.jti == jti,
    {
        let expires: i64 = issued.secs + seconds_to_expiration;
        RegisteredClaims {
            iss: String::from_str(iss),
            exp: #[verifier::truncate]
            (expires as usize),
            nbf: #[verifier::truncate]
            (issued.secs as usize),
            iat: #[verifier::truncate]
            (issued.secs as usize),
            jti,
        }
    }

    /// The registered claims of a token issued by `iss` now: it is valid
    /// from now, expires `seconds_to_expiration` from now, and carries a
    /// fresh random identifier.
    pub fn new(iss: &str, seconds_to_expiration: i64) -> (claims: RegisteredClaims)
        requires
            seconds_to_expiration <= MAX_SECONDS_TO_EXPIRATION,
        ensures
            claims@.is_fresh(iss@, seconds_to_expiration),
    {
        let issued = now();
        let jti = new_token_id();
        let claims = RegisteredClaims::at(iss, issued, seconds_to_expiration, jti);
        assert(claims@.is_issued_at(iss@, issued.secs as int, seconds_to_expiration));
        claims
    }
}

impl Claims {
    /// The claim set of `user`'s access token: the registered claims, the
    /// text of the user's identifier, and the user's one role by name.
    pub open spec fn view_for_user(registered_claims: RegisteredClaimsView, user: UserView)
        -> ClaimsView {
        ClaimsView {
            registered_claims,
            user_id: uuid_text(user.id),
            roles: seq![user.role.name()],
        }
    }

    /// Makes the claim set of `user`'s access token.
    pub fn for_user(registered_claims: RegisteredClaims, user: &User) -> (claims: Claims)
        ensures
            claims.registered_claims == registered_claims,
            claims@ == Claims::view_for_user(registered_claims@, user@),
    {
        let mut roles: Vec<String> = Vec::new();
        roles.push(String::from_str(user.role.as_str()));
        let claims = Claims { registered_claims, user_id: user_id_text(user.id), roles };
        assert(claims.roles.deep_view() =~= seq![user.role.name()]);
        claims
    }

    /// Writes the claim set as its JSON payload.
    pub fn to_json(&self) -> (text: String)
        ensures
            text@ == claims_json(self@),
    {
        let mut out = String::new();
        out.append("{\"iss\":");
        push_json_string(&mut out, self.registered_claims.iss.as_str());
        out.append(",\"exp\":");
        push_decimal(&mut out, self.registered_claims.exp);
        out.append(",\"nbf\":");
        push_decimal(&mut out, self.registered_claims.nbf);
        out.append(",\"iat\":");
        push_decimal(&mut out, self.registered_claims.iat);
        out.append(",\"jti\":");
        push_json_string(&mut out, self.registered_claims.jti.as_str());
        out.append(",\"user_id\":");
        push_json_string(&mut out, self.user_id.as_str());
        out.append(",\"roles\":");
        push_json_string_array(&mut out, &self.roles);
        out.append("}");
        assert(out@ =~= claims_json(self@));
        out
    }
}

/// An access token with the refresh token that renews it.
#[derive(Clone, Debug, PartialEq, Eq)]
pub struct Jwt {
    pub access: String,
    pub refresh: String,
}

/// A request to rotate a refresh token.
#[derive(Clone, Debug, PartialEq, Eq)]
pub struct RefreshInfo {
    pub refresh_token: String,
}

/// A request to revoke a refresh token.
pub type RevocationInfo = RefreshInfo;

} // verus!
