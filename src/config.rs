use vstd::prelude::*;

use crate::account::{now_timestamp, PcsAccessToken, REFRESH_WINDOW_SECS};

verus! {

/// Settings of this client.
#[derive(Debug, Clone)]
pub struct Config {
    pub baidu_pan: BaiduPan,
    pub local_pan: LocalConfig,
}

/// Credentials and remote root of the drive account.
#[derive(Debug, Clone)]
pub struct BaiduPan {
    pub access_token: String,
    pub refresh_token: String,
    /// When the access token expires, seconds since the epoch.
    pub expires_at: i64,
    pub root_path: String,
}

/// Local side of the transfers.
#[derive(Debug, Clone)]
pub struct LocalConfig {
    pub root_path: String,
    pub include_prefix: Option<bool>,
}

/// Local root used when none is given.
pub const DEFAULT_LOCAL_ROOT: &'static str = "/data/backup/";

/// Remote root used when none is given.
pub const DEFAULT_REMOTE_ROOT: &'static str = "/";

/// Expiry of a token: when it was obtained plus its lifetime, capped at
/// the largest time that can be stored.
pub open spec fn expiry_of(ticket: PcsAccessToken) -> i64 {
    if ticket.born_at + ticket.expires_in <= i64::MAX {
        (ticket.born_at + ticket.expires_in) as i64
    } else {
        i64::MAX
    }
}

impl Config {
    /// Stores a new token: its access and refresh tokens and its expiry.
    pub fn update_token(&mut self, ticket: PcsAccessToken)
        ensures
            final(self).baidu_pan.access_token@ == ticket.access_token@,
            final(self).baidu_pan.refresh_token@ == ticket.refresh_token@,
            final(self).baidu_pan.expires_at == expiry_of(ticket),
            final(self).baidu_pan.root_path == old(self).baidu_pan.root_path,
            final(self).local_pan == old(self).local_pan,
    {
        let end: i128 = ticket.born_at as i128 + ticket.expires_in as i128;
        self.baidu_pan.expires_at = if end > i64::MAX as i128 {
            i64::MAX
        } else {
            end as i64
        };
        self.baidu_pan.access_token = ticket.access_token;
        self.baidu_pan.refresh_token = ticket.refresh_token;
    }

    /// Whether the stored token should be renewed now.
    pub fn is_need_refresh_token(&self) -> (r: bool)
        ensures
            exists|now: i64| r == #[trigger] self.baidu_pan.needs_refresh_at(now),
    {
        self.baidu_pan.is_need_refresh_token()
    }

    /// The settings written on first use: the token just obtained (its
    /// expiry recorded as the time it was obtained), and the given roots
    /// or the defaults, without the local prefix.
    pub fn first_use(token: &PcsAccessToken, local: Option<String>, remote: Option<String>) -> (r:
        Config)
        ensures
            r.baidu_pan.access_token@ == token.access_token@,
            r.baidu_pan.refresh_token@ == token.refresh_token@,
            r.baidu_pan.expires_at == token.born_at,
            r.baidu_pan.root_path@ == match remote {
                Some(p) => p@,
                None => DEFAULT_REMOTE_ROOT@,
            },
            r.local_pan.root_path@ == match local {
                Some(p) => p@,
                None => DEFAULT_LOCAL_ROOT@,
            },
            r.local_pan.include_prefix == Some(false),
    {
        let local_root = match local {
            Some(p) => p,
            None => DEFAULT_LOCAL_ROOT.to_owned(),
        };
        let remote_root = match remote {
            Some(p) => p,
            None => DEFAULT_REMOTE_ROOT.to_owned(),
        };
        Config {
            baidu_pan: BaiduPan {
                access_token: token.access_token.clone(),
                refresh_token: token.refresh_token.clone(),
                expires_at: token.born_at,
                root_path: remote_root,
            },
            local_pan: LocalConfig { root_path: local_root, include_prefix: Some(false) },
        }
    }
}

impl BaiduPan {
    /// At time `now`, the token expires within seven days.
    pub open spec fn needs_refresh_at(&self, now: i64) -> bool {
        now + REFRESH_WINDOW_SECS > self.expires_at
    }

    /// Whether, at time `now`, the token expires within seven days.
    pub fn is_need_refresh_token_at(&self, now: i64) -> (r: bool)
        ensures
            r == self.needs_refresh_at(now),
    {
        now as i128 + REFRESH_WINDOW_SECS as i128 > self.expires_at as i128
    }

    /// Whether the token expires within seven days.
    pub fn is_need_refresh_token(&self) -> (r: bool)
        ensures
            exists|now: i64| r == #[trigger] self.needs_refresh_at(now),
    {
        self.is_need_refresh_token_at(now_timestamp())
    }
}

} // verus!
