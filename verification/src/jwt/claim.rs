//! Claims: a payload with the time it was issued at and the time it expires
//! at.
use super::clock::unix_now;
use super::config::JwtConfig;
use super::error::TokenError;
use super::payload::Payload;
use crate::decimal::{
    lemma_read_numeral, numeral, parse_seconds, read_count, read_i64, read_integer, write_i64,
};
use crate::text::{
    chars_of, enclosed, lemma_enclosed, lemma_member, member, read_enclosed, read_member,
};
use vstd::prelude::*;
use vstd::string::{StrSliceExecFns, StringExecFns};

verus! {

/// A payload, valid from `iat` to `exp`, both in seconds since the Unix epoch.
#[derive(Debug, Clone, PartialEq, Eq)]
pub struct Claim<T> {
    exp: i64,
    iat: i64,
    data: T,
}

/// A claim as contracts speak of it.
pub struct ClaimView<V> {
    pub exp: int,
    pub iat: int,
    pub data: V,
}

impl<T: Payload> View for Claim<T> {
    type V = ClaimView<T::V>;

    closed spec fn view(&self) -> ClaimView<T::V> {
        ClaimView { exp: self.exp as int, iat: self.iat as int, data: self.data@ }
    }
}

/// The claim that is issued at `now` for a payload, under the configured
/// validity window. The window is a count of seconds, and the claim must
/// expire at a time that 64 bits can hold.
pub open spec fn issued<V>(data: V, expire_secs: Option<Seq<char>>, now: int) -> Result<
    ClaimView<V>,
    TokenError,
> {
    match expire_secs {
        None => Err(TokenError::JwtExpiryTimeNotFound),
        Some(text) => match read_count(text) {
            Some(window) if now + window <= i64::MAX => Ok(
                ClaimView { exp: now + window, iat: now, data },
            ),
            _ => Err(TokenError::JwtExpiryNotValid),
        },
    }
}

/// What checking a claim at `now` gives: the payload, until the claim's time
/// has passed.
pub open spec fn verified<V>(claim: ClaimView<V>, now: int) -> Result<V, TokenError> {
    if now > claim.exp {
        Err(TokenError::TokenExpired)
    } else {
        Ok(claim.data)
    }
}

/// Round trip and expiry. A claim that is issued at `now` under a validity
/// window of `window` seconds, and that expires at a time that 64 bits can
/// hold, hands its payload out unchanged at every time up to `now + window`,
/// and is expired at every time after it.
pub proof fn lemma_claim_window<V>(
    data: V,
    expire_secs: Seq<char>,
    window: i64,
    now: int,
    later: int,
)
    requires
        read_count(expire_secs) == Some(window),
        now + window <= i64::MAX,
    ensures
        issued(data, Some(expire_secs), now) == Ok::<ClaimView<V>, TokenError>(
            ClaimView { exp: now + window, iat: now, data },
        ),
        later <= now + window ==> verified(
            ClaimView { exp: now + window, iat: now, data },
            later,
        ) == Ok::<V, TokenError>(data),
        later > now + window ==> verified(
            ClaimView { exp: now + window, iat: now, data },
            later,
        ) == Err::<V, TokenError>(TokenError::TokenExpired),
{
}

/// The JSON text of a claim, as it is signed.
pub open spec fn claim_json<T: Payload>(claim: ClaimView<T::V>) -> Seq<char> {
    "{\"exp\":"@ + numeral(claim.exp) + ",\"iat\":"@ + numeral(claim.iat) + ",\"data\":"@
        + T::json(claim.data) + "}"@
}

/// The three members of a claim's JSON text, each as it is written: the
/// first follows `{"exp":` and ends before the first comma, the second
/// follows `,"iat":` and ends before the next comma, and the third stands
/// between `,"data":` and the closing brace.
pub open spec fn claim_members(text: Seq<char>) -> Option<(Seq<char>, Seq<char>, Seq<char>)> {
    match member(text, "{\"exp\":"@, ',') {
        None => None,
        Some((exp, rest)) => match member(rest, ",\"iat\":"@, ',') {
            None => None,
            Some((iat, rest)) => match enclosed(rest, ",\"data\":"@, "}"@) {
                None => None,
                Some(data) => Some((exp, iat, data)),
            },
        },
    }
}

/// The claim that a JSON text stands for, if it stands for one.
pub open spec fn claim_read<T: Payload>(text: Seq<char>) -> Option<ClaimView<T::V>> {
    match claim_members(text) {
        None => None,
        Some((exp, iat, data)) => match (read_integer(exp), read_integer(iat), T::parse(data)) {
            (Some(exp), Some(iat), Some(data)) => Some(
                ClaimView { exp: exp as int, iat: iat as int, data },
            ),
            _ => None,
        },
    }
}

/// The members that a claim's JSON text is written from are read back from
/// it, where the first two hold no comma.
pub proof fn lemma_claim_members(exp: Seq<char>, iat: Seq<char>, data: Seq<char>)
    requires
        !exp.contains(','),
        !iat.contains(','),
    ensures
        claim_members("{\"exp\":"@ + exp + ",\"iat\":"@ + iat + ",\"data\":"@ + data + "}"@)
            == Some((exp, iat, data)),
{
    let a = "{\"exp\":"@;
    let b = ",\"iat\":"@;
    let c = ",\"data\":"@;
    let z = "}"@;
    let text = a + exp + b + iat + c + data + z;
    let r1 = b + iat + c + data + z;
    let r2 = c + data + z;
    assert(member(text, a, ',') == Some((exp, r1))) by {
        reveal_strlit(",\"iat\":");
        assert(r1[0] == b[0]);
        assert(text =~= a + exp + r1);
        lemma_member(a, exp, r1, ',');
    }
    assert(member(r1, b, ',') == Some((iat, r2))) by {
        reveal_strlit(",\"data\":");
        assert(r2[0] == c[0]);
        assert(r1 =~= b + iat + r2);
        lemma_member(b, iat, r2, ',');
    }
    assert(enclosed(r2, c, z) == Some(data)) by {
        lemma_enclosed(c, data, z);
    }
}

impl<T: Payload> Claim<T> {
    /// The time at which the claim was issued.
    pub fn issued_at(&self) -> (t: i64)
        ensures
            t == self@.iat,
    {
        self.iat
    }

    /// The last time at which the claim holds.
    pub fn expires_at(&self) -> (t: i64)
        ensures
            t == self@.exp,
    {
        self.exp
    }

    /// The payload.
    pub fn data(&self) -> (data: &T)
        ensures
            data@ == self@.data,
    {
        &self.data
    }

    /// Issues a claim for `data` at `now`.
    pub fn from_data_at(data: T, config: &JwtConfig, now: i64) -> (r: Result<Self, TokenError>)
        ensures
            match issued(data@, config@.expire_secs, now as int) {
                Ok(claim) => r matches Ok(c) && c@ == claim,
                Err(e) => r matches Err(err) && err == e,
            },
    {
        let window = match &config.expire_secs {
            None => {
                return Err(TokenError::JwtExpiryTimeNotFound);
            },
            Some(text) => match parse_seconds(text.as_str()) {
                None => {
                    return Err(TokenError::JwtExpiryNotValid);
                },
                Some(window) => window,
            },
        };
        match now.checked_add(window) {
            None => Err(TokenError::JwtExpiryNotValid),
            Some(exp) => Ok(Claim { exp, iat: now, data }),
        }
    }

    /// Issues a claim for `data` at the time that the system clock shows.
    pub fn from_data(data: T, config: &JwtConfig) -> (r: Result<Self, TokenError>)
        ensures
            exists|now: i64|
                match #[trigger] issued(data@, config@.expire_secs, now as int) {
                    Ok(claim) => r matches Ok(c) && c@ == claim,
                    Err(e) => r matches Err(err) && err == e,
                },
    {
        let now = unix_now();
        let r = Self::from_data_at(data, config, now);
        proof {
            let _ = issued(data@, config@.expire_secs, now as int);
        }
        r
    }

    /// Hands the payload out, unless the claim has expired at `now`.
    pub fn verify_at(self, now: i64) -> (r: Result<T, TokenError>)
        ensures
            match verified(self@, now as int) {
                Ok(data) => r matches Ok(d) && d@ == data,
                Err(e) => r matches Err(err) && err == e,
            },
    {
        if self.exp < now {
            Err(TokenError::TokenExpired)
        } else {
            Ok(self.data)
        }
    }

    /// Hands the payload out, unless the claim has expired at the time that
    /// the system clock shows.
    pub fn verify(self) -> (r: Result<T, TokenError>)
        ensures
            exists|now: i64|
                match #[trigger] verified(self@, now as int) {
                    Ok(data) => r matches Ok(d) && d@ == data,
                    Err(e) => r matches Err(err) && err == e,
                },
    {
        let now = unix_now();
        let ghost claim = self@;
        let r = self.verify_at(now);
        proof {
            let _ = verified(claim, now as int);
        }
        r
    }

    /// Writes the claim as JSON. What is written stands between braces and
    /// is read back as the claim.
    pub fn to_json(&self) -> (text: String)
        ensures
            text@ == claim_json::<T>(self@),
            claim_read::<T>(text@) == Some(self@),
            text@.len() >= 2,
            text@.first() == '{',
            text@.last() == '}',
    {
        let exp = write_i64(self.exp);
        let iat = write_i64(self.iat);
        let data = self.data.to_json();
        let mut text = "{\"exp\":".to_owned();
        text.append(exp.as_str());
        text.append(",\"iat\":");
        text.append(iat.as_str());
        text.append(",\"data\":");
        text.append(data.as_str());
        text.append("}");
        proof {
            reveal_strlit("{\"exp\":");
            reveal_strlit("}");
            lemma_read_numeral(self.exp);
            lemma_read_numeral(self.iat);
            lemma_claim_members(exp@, iat@, data@);
            assert(text@ =~= claim_json::<T>(self@));
        }
        text
    }

    /// Reads a claim from its JSON text.
    pub fn from_json(text: &str) -> (r: Option<Self>)
        ensures
            match claim_read::<T>(text@) {
                Some(claim) => r matches Some(c) && c@ == claim,
                None => r is None,
            },
    {
        let chars = chars_of(text);
        let cs = chars.as_slice();
        proof {
            assert(cs@.skip(0) =~= text@);
        }
        let (a, b) = match read_member(cs, 0, "{\"exp\":", ',') {
            None => {
                return None;
            },
            Some(found) => found,
        };
        let (c, d) = match read_member(cs, b, ",\"iat\":", ',') {
            None => {
                return None;
            },
            Some(found) => found,
        };
        let (e, f) = match read_enclosed(cs, d, ",\"data\":", "}") {
            None => {
                return None;
            },
            Some(found) => found,
        };
        assert(claim_members(text@) == Some(
            (
                text@.subrange(a as int, b as int),
                text@.subrange(c as int, d as int),
                text@.subrange(e as int, f as int),
            ),
        ));
        let exp = read_i64(cs, a, b);
        let iat = read_i64(cs, c, d);
        let data = T::from_json(text.substring_char(e, f));
        match (exp, iat, data) {
            (Some(exp), Some(iat), Some(data)) => Some(Claim { exp, iat, data }),
            _ => None,
        }
    }
}

} // verus!
