use vstd::prelude::*;

use crate::error::Error;

verus! {

/// What one successful exchange with the token source hands back: a fresh
/// secret together with its time-to-live in seconds.
#[derive(Debug, Clone)]
pub struct FetchedToken {
    pub secret: String,
    pub ttl_seconds: u64,
}

impl FetchedToken {
    /// A usable answer from the source never carries an empty secret.
    pub open spec fn inv(self) -> bool {
        self.secret@.len() > 0
    }

    /// Validates a source's answer: accepts any non-empty secret, and
    /// rejects an empty one as a source failure.
    pub fn new(secret: String, ttl_seconds: u64) -> (r: Result<FetchedToken, Error>)
        ensures
            secret@.len() > 0 ==> (r matches Ok(f) && f.secret == secret && f.ttl_seconds
                == ttl_seconds && f.inv()),
            secret@.len() == 0 ==> (r matches Err(e) && e matches Error::SourceUnavailable(m)
                && m@ == "empty secret"@),
    {
        if secret.as_str().is_empty() {
            Err(Error::SourceUnavailable("empty secret".to_owned()))
        } else {
            Ok(FetchedToken { secret, ttl_seconds })
        }
    }
}

/// The current secret and its absolute expiry instant, in seconds on the
/// injected clock. Owned by one credential cache; replaced wholesale — never
/// field by field — on each successful refresh.
#[derive(Debug, Clone)]
pub struct TokenState {
    secret: String,
    expires_at: u64,
}

impl TokenState {
    /// The characters of the stored secret.
    pub closed spec fn secret_view(self) -> Seq<char> {
        self.secret@
    }

    /// The absolute instant the secret stops being usable.
    pub closed spec fn spec_expires_at(self) -> u64 {
        self.expires_at
    }

    /// A constructed state always holds a non-empty secret.
    pub open spec fn inv(self) -> bool {
        self.secret_view().len() > 0
    }

    /// Expired exactly when the clock has reached the expiry instant.
    pub open spec fn spec_is_expired(self, now: u64) -> bool {
        self.spec_expires_at() <= now
    }

    /// Builds the state for a freshly fetched secret. The expiry is anchored
    /// at `now`, the instant the fetch returned — not the instant the
    /// refresh was requested.
    pub fn new(fetched: FetchedToken, now: u64) -> (state: TokenState)
        requires
            fetched.inv(),
            now + fetched.ttl_seconds <= u64::MAX,
        ensures
            state.secret_view() == fetched.secret@,
            state.spec_expires_at() == now + fetched.ttl_seconds,
            state.inv(),
    {
        TokenState { secret: fetched.secret, expires_at: now + fetched.ttl_seconds }
    }

    /// Whether the secret is past its expiry at instant `now`.
    pub fn is_expired(&self, now: u64) -> (expired: bool)
        ensures
            expired == self.spec_is_expired(now),
    {
        self.expires_at <= now
    }

    /// The stored secret.
    pub fn secret(&self) -> (secret: &String)
        ensures
            secret@ == self.secret_view(),
    {
        &self.secret
    }

    /// The absolute expiry instant.
    pub fn expires_at(&self) -> (instant: u64)
        ensures
            instant == self.spec_expires_at(),
    {
        self.expires_at
    }
}

} // verus!
