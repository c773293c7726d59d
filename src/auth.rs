use vstd::prelude::*;

use crate::account::{BaiduPcsApp, PcsAccessToken};
use crate::error::PcsError;

verus! {

/// First answer of the device-code authorization: what the user must
/// enter, where, and how often to poll.
#[derive(Debug)]
pub struct PcsDeviceTicket {
    pub device_code: String,
    pub user_code: String,
    pub verification_url: String,
    /// Lifetime of the device code, in seconds.
    pub expires_in: i64,
    /// Polling interval, in seconds.
    pub interval: i64,
    pub qrcode_url: String,
}

impl PcsDeviceTicket {
    pub fn get_device_code(&self) -> (r: &String)
        ensures
            r == self.device_code,
    {
        &self.device_code
    }

    pub fn get_user_code(&self) -> (r: &String)
        ensures
            r == self.user_code,
    {
        &self.user_code
    }

    pub fn get_verification_url(&self) -> (r: &String)
        ensures
            r == self.verification_url,
    {
        &self.verification_url
    }

    pub fn get_interval(&self) -> (r: &i64)
        ensures
            *r == self.interval,
    {
        &self.interval
    }

    /// Seconds to wait before each poll: the interval's magnitude plus one.
    pub fn poll_delay_secs(&self) -> (r: u64)
        ensures
            r == (if self.interval < 0 {
                -self.interval
            } else {
                self.interval as int
            }) + 1,
    {
        let magnitude: u64 = if self.interval < 0 {
            (0i128 - self.interval as i128) as u64
        } else {
            self.interval as u64
        };
        magnitude + 1
    }
}

/// Device-code authorization against the drive's open platform.
pub trait BaiduPanDeviceAuthClient: Sized {
    /// A client for the application `app`.
    fn with(app: BaiduPcsApp) -> Self;

    /// A client for `app` that resolves host names with the given servers.
    fn with_dns(app: BaiduPcsApp, dns: Option<&str>) -> Self;

    /// Asks for a device code and the code the user enters.
    fn get_user_code(&self) -> PcsDeviceTicket;

    /// Trades a device code for an access token once the user agreed.
    fn get_access_token(&self, device_code: String) -> Result<PcsAccessToken, PcsError>;

    /// Renews a token with its refresh token.
    fn refresh_access_token(&self, pcs_access_token: &PcsAccessToken) -> Result<
        PcsAccessToken,
        PcsError,
    >;

    /// Name of the application.
    fn get_appname(&self) -> String;
}

/// Error code of a failure inside the client rather than at the server.
pub const SDK_ERROR: &'static str = "pcs sdk error";

/// Error code while the user has not answered yet.
pub const AUTHORIZATION_PENDING: &'static str = "authorization_pending";

/// What to do after one poll of the device-code authorization.
#[derive(Debug)]
pub enum DeviceAuthStep {
    /// The user agreed: here is the token.
    Done(PcsAccessToken),
    /// The user has not answered yet: wait and poll again.
    Poll,
    /// The client itself failed: stop, with this description.
    Abort(String),
    /// The device code is no longer good: start over with a new one.
    Restart,
}

/// Decides the next step of the device-code authorization from the answer
/// of one poll.
pub fn device_auth_next(answer: Result<PcsAccessToken, PcsError>) -> (r: DeviceAuthStep)
    ensures
        match answer {
            Ok(t) => r == DeviceAuthStep::Done(t),
            Err(e) => if e.error@ == SDK_ERROR@ {
                r matches DeviceAuthStep::Abort(d) && d@ == e.error_description@
            } else if e.error@ == AUTHORIZATION_PENDING@ {
                r is Poll
            } else {
                r is Restart
            },
        },
{
    match answer {
        Ok(token) => DeviceAuthStep::Done(token),
        Err(e) => {
            if e.error.eq(&SDK_ERROR.to_owned()) {
                DeviceAuthStep::Abort(e.error_description)
            } else if e.error.eq(&AUTHORIZATION_PENDING.to_owned()) {
                DeviceAuthStep::Poll
            } else {
                DeviceAuthStep::Restart
            }
        },
    }
}

} // verus!
