use vstd::prelude::*;

use crate::expiry::{spec_needs_refresh, REFRESH_BUFFER_SECS};

verus! {

/// A short-lived bearer token together with its server-assigned expiry, kept
/// as seconds since the Unix epoch.
pub struct ShortTokenEntry {
    pub value: String,
    pub expires_at: i64,
}

/// Process-local cache of the two token tiers.
///
/// The short token and its expiry form one atomic unit: they are present or
/// absent together by construction, so no reader can observe a half-updated
/// pair. The long token is only ever overwritten, never cleared, by this
/// crate's logic.
pub struct TokenCache {
    pub long_token: Option<String>,
    pub short_token: Option<ShortTokenEntry>,
}

impl TokenCache {
    /// The cached long token, as a character sequence.
    pub open spec fn long_view(&self) -> Option<Seq<char>> {
        match self.long_token {
            Some(t) => Some(t@),
            None => None,
        }
    }

    /// The cached short token and its expiry, as a character sequence paired
    /// with a mathematical instant.
    pub open spec fn short_view(&self) -> Option<(Seq<char>, int)> {
        match self.short_token {
            Some(e) => Some((e.value@, e.expires_at as int)),
            None => None,
        }
    }

    /// An empty cache: no token of either tier.
    pub fn new() -> (c: TokenCache)
        ensures
            c.long_view() is None,
            c.short_view() is None,
    {
        TokenCache { long_token: None, short_token: None }
    }

    /// Overwrites the long-token slot unconditionally; the short slot is
    /// untouched.
    pub fn set_long(&mut self, token: String)
        ensures
            final(self).long_view() == Some(token@),
            final(self).short_view() == old(self).short_view(),
    {
        self.long_token = Some(token);
    }

    /// Stores a short token and its expiry as one atomic pair; the long slot
    /// is untouched.
    pub fn set_short(&mut self, value: String, expires_at: i64)
        ensures
            final(self).short_view() == Some((value@, expires_at as int)),
            final(self).long_view() == old(self).long_view(),
    {
        self.short_token = Some(ShortTokenEntry { value, expires_at });
    }

    /// Invalidates the short token, clearing value and expiry together; the
    /// long slot is untouched.
    pub fn clear_short(&mut self)
        ensures
            final(self).short_view() is None,
            final(self).long_view() == old(self).long_view(),
    {
        self.short_token = None;
    }

    /// Whether the short token must be refreshed before it can authorize a
    /// request issued at instant `now` (seconds since the Unix epoch).
    pub fn needs_refresh(&self, now: i64) -> (r: bool)
        ensures
            r == spec_needs_refresh(self.short_view(), now as int),
    {
        match &self.short_token {
            None => true,
            Some(entry) => {
                // Saturating at the top of the range agrees with the
                // mathematical rule: when now + buffer exceeds i64::MAX it
                // also exceeds any representable expiry.
                let threshold: i64 = if now > i64::MAX - REFRESH_BUFFER_SECS {
                    i64::MAX
                } else {
                    now + REFRESH_BUFFER_SECS
                };
                threshold >= entry.expires_at
            },
        }
    }
}

} // verus!
