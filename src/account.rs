use vstd::prelude::*;

verus! {

/// One mebibyte.
pub const MIB: u64 = 1024 * 1024;

/// One gibibyte.
pub const GIB: u64 = 1024 * 1024 * 1024;

/// Block size of the upload protocol for a membership tier
/// (0 ordinary, 1 member, 2 super member; anything else counts as ordinary).
pub open spec fn tier_block_size(vip_type: i32) -> int {
    if vip_type == 1 {
        16 * MIB
    } else if vip_type == 2 {
        32 * MIB
    } else {
        4 * MIB
    }
}

/// Largest single file a membership tier may upload.
pub open spec fn tier_max_file_size(vip_type: i32) -> int {
    if vip_type == 1 {
        10 * GIB
    } else if vip_type == 2 {
        20 * GIB
    } else {
        4 * GIB
    }
}

/// Account information as the remote service reports it.
#[derive(Debug, Clone)]
pub struct PcsUserInfo {
    /// Account name.
    pub baidu_name: String,
    /// Drive account name.
    pub netdisk_name: String,
    /// Avatar address.
    pub avatar_url: String,
    /// Membership tier: 0 ordinary, 1 member, 2 super member.
    pub vip_type: i32,
    /// User id.
    pub uk: u64,
}

impl PcsUserInfo {
    /// Size of one upload block for this account's tier.
    pub fn get_user_block_slice_size(&self) -> (r: u64)
        ensures
            r == tier_block_size(self.vip_type),
            r > 0,
    {
        match self.vip_type {
            1 => 16 * MIB,
            2 => 32 * MIB,
            _ => 4 * MIB,
        }
    }

    /// Largest file this account's tier may upload.
    pub fn get_user_max_upload_file_size(&self) -> (r: u64)
        ensures
            r == tier_max_file_size(self.vip_type),
    {
        match self.vip_type {
            1 => 10 * GIB,
            2 => 20 * GIB,
            _ => 4 * GIB,
        }
    }
}

/// Registration of this client application with the drive's open platform.
#[derive(Debug)]
pub struct BaiduPcsApp {
    /// Application key.
    pub app_key: &'static str,
    /// Application secret.
    pub app_secret: &'static str,
    /// Application name.
    pub app_name: &'static str,
}

impl BaiduPcsApp {
    /// The application key as an owned string.
    pub fn get_app_key(&self) -> (r: String)
        ensures
            r@ == self.app_key@,
    {
        self.app_key.to_owned()
    }

    /// The application secret as an owned string.
    pub fn get_app_secret(&self) -> (r: String)
        ensures
            r@ == self.app_secret@,
    {
        self.app_secret.to_owned()
    }

    /// The application name as an owned string.
    pub fn get_app_name(&self) -> (r: String)
        ensures
            r@ == self.app_name@,
    {
        self.app_name.to_owned()
    }
}

/// Relies on `chrono::Utc::now` and `DateTime::timestamp`: the current
/// time in whole seconds since the Unix epoch.
#[verifier::external_body]
pub(crate) fn now_timestamp() -> (r: i64) {
    chrono::Utc::now().timestamp()
}

/// Seconds before expiry from which a token counts as expired.
pub const EXPIRY_MARGIN_SECS: i64 = 600;

/// Seven days, in seconds.
pub const REFRESH_WINDOW_SECS: i64 = 7 * 24 * 3600;

/// An access token of the drive's open platform, with the time it was
/// obtained.
#[derive(Debug)]
pub struct PcsAccessToken {
    /// The bearer token.
    pub access_token: String,
    /// Lifetime in seconds.
    pub expires_in: u32,
    /// Token that renews the access token.
    pub refresh_token: String,
    /// Granted permissions.
    pub scope: String,
    pub session_secret: Option<String>,
    pub session_key: Option<String>,
    /// When the token was obtained, seconds since the epoch.
    pub born_at: i64,
}

impl PcsAccessToken {
    /// At time `now`, the token expires within ten minutes (or has expired).
    pub open spec fn expires_soon_at(&self, now: i64) -> bool {
        now + EXPIRY_MARGIN_SECS > self.born_at + self.expires_in
    }

    /// At time `now`, the token has more than seven days to live.
    pub open spec fn lives_past_window_at(&self, now: i64) -> bool {
        now + REFRESH_WINDOW_SECS < self.born_at + self.expires_in
    }

    /// A token obtained now.
    pub fn new(access_token: &str, expires_in: u32, refresh_token: &str, scope: &str) -> (r: Self)
        ensures
            r.access_token@ == access_token@,
            r.expires_in == expires_in,
            r.refresh_token@ == refresh_token@,
            r.scope@ == scope@,
            r.session_key is None,
            r.session_secret is None,
    {
        PcsAccessToken {
            access_token: access_token.to_owned(),
            expires_in,
            refresh_token: refresh_token.to_owned(),
            scope: scope.to_owned(),
            session_key: None,
            session_secret: None,
            born_at: now_timestamp(),
        }
    }

    /// Whether, at time `now`, the token expires within the next ten
    /// minutes (or has expired).
    pub fn is_expired_at(&self, now: i64) -> (r: bool)
        ensures
            r == self.expires_soon_at(now),
    {
        (now as i128 + EXPIRY_MARGIN_SECS as i128) > (self.born_at as i128 + self.expires_in as i128)
    }

    /// Whether the token expires within the next ten minutes.
    pub fn is_expired(&self) -> (r: bool)
        ensures
            exists|now: i64| r == #[trigger] self.expires_soon_at(now),
    {
        self.is_expired_at(now_timestamp())
    }

    /// Whether, at time `now`, the token still has more than seven days to
    /// live.
    pub fn is_need_refresh_at(&self, now: i64) -> (r: bool)
        ensures
            r == self.lives_past_window_at(now),
    {
        (now as i128 + REFRESH_WINDOW_SECS as i128) < (self.born_at as i128
            + self.expires_in as i128)
    }

    /// Whether the token still has more than seven days to live.
    pub fn is_need_refresh(&self) -> (r: bool)
        ensures
            exists|now: i64| r == #[trigger] self.lives_past_window_at(now),
    {
        self.is_need_refresh_at(now_timestamp())
    }

    pub fn get_access_token(&self) -> (r: &String)
        ensures
            r == self.access_token,
    {
        &self.access_token
    }

    pub fn get_expires_in(&self) -> (r: &u32)
        ensures
            *r == self.expires_in,
    {
        &self.expires_in
    }

    pub fn get_refresh_token(&self) -> (r: &String)
        ensures
            r == self.refresh_token,
    {
        &self.refresh_token
    }

    pub fn get_scope(&self) -> (r: &String)
        ensures
            r == self.scope,
    {
        &self.scope
    }

    pub fn get_born_at(&self) -> (r: &i64)
        ensures
            *r == self.born_at,
    {
        &self.born_at
    }
}

} // verus!
