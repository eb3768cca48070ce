//! The server's license: how a license file turns into the stored license, how
//! a renewal extends it, and when the cached license counts as expired.
use vstd::prelude::*;
use crate::text::{replace_all, replace_seq, string_from_range, chars_of, trim, trim_bounds};

verus! {

/// The key under which the license is stored.
pub open spec fn license_key() -> Seq<char> {
    "rustmailer_license"@
}

/// Milliseconds in a day.
pub const DAY_MS: i64 = 86400000;

/// How long a trial lasts, in days.
pub const TRIAL_DAYS: i64 = 14;

/// How long a paid license stays usable after it expires, in milliseconds.
pub const GRACE_MS: i64 = 2592000000;

/// How long the cached license is trusted before it is read again, in
/// milliseconds.
pub const CACHE_TTL: i64 = 3600000;

#[derive(Clone, Copy, Debug, PartialEq, Eq, Structural)]
pub enum LicenseType {
    Trial,
    Starter,
    Unlimited,
}

impl Default for LicenseType {
    fn default() -> (r: LicenseType)
        ensures
            r == LicenseType::Trial,
    {
        LicenseType::Trial
    }
}

/// The stored license.
#[derive(Clone, Debug, Default, PartialEq, Eq)]
pub struct License {
    pub id: String,
    pub issued_license_id: String,
    pub application_name: Option<String>,
    pub customer_name: Option<String>,
    /// Milliseconds since the Unix epoch.
    pub created_at: i64,
    pub license_type: LicenseType,
    /// Milliseconds since the Unix epoch.
    pub expires_at: i64,
    /// The expiry that a renewal replaced.
    pub last_expires_at: Option<i64>,
    /// The license file, as it was installed.
    pub license_content: Option<String>,
    pub max_accounts: Option<u32>,
}

/// The claims of a license file.
#[derive(Clone, Debug, PartialEq, Eq)]
pub struct LicenseContent {
    pub issued_license_id: String,
    pub application_name: Option<String>,
    pub customer_name: Option<String>,
    /// Milliseconds since the Unix epoch.
    pub created_at: i64,
    pub license_type: LicenseType,
    pub max_accounts: Option<u32>,
    pub duration_days: u32,
    /// Count the duration from the file's creation even when the current
    /// license is still running.
    pub ignore_existing_expiry: bool,
}

/// `n` days after `ts`.
pub open spec fn after_days(ts: i64, n: int) -> int {
    ts + n * DAY_MS
}

/// `n` days after `ts` fits in an `i64`.
pub open spec fn days_fit(ts: i64, n: int) -> bool {
    i64::MIN <= after_days(ts, n) <= i64::MAX
}

fn add_days(ts: i64, n: u32) -> (r: i64)
    requires
        days_fit(ts, n as int),
    ensures
        r == after_days(ts, n as int),
{
    assert(0 <= n * DAY_MS <= 4294967295 * DAY_MS) by (nonlinear_arith)
        requires
            0 <= n <= 4294967295,
    ;
    let span: i64 = (n as i64) * DAY_MS;
    ts + span
}

fn key() -> (r: String)
    ensures
        r@ == license_key(),
{
    "rustmailer_license".to_owned()
}

impl License {
    /// The trial license that a fresh installation starts with: fourteen days
    /// from `created_at`.
    pub fn trial(created_at: i64) -> (r: License)
        requires
            days_fit(created_at, TRIAL_DAYS as int),
        ensures
            r.id@ == license_key(),
            r.issued_license_id@.len() == 0,
            r.application_name is None && r.customer_name is None,
            r.created_at == created_at,
            r.license_type == LicenseType::Trial,
            r.expires_at == after_days(created_at, TRIAL_DAYS as int),
            r.last_expires_at is None,
            r.license_content is None,
            r.max_accounts is None,
    {
        License {
            id: key(),
            issued_license_id: String::new(),
            application_name: None,
            customer_name: None,
            created_at,
            license_type: LicenseType::Trial,
            expires_at: add_days(created_at, 14),
            last_expires_at: None,
            license_content: None,
            max_accounts: None,
        }
    }

    /// A license installed from a file: it runs for the file's duration from
    /// the file's creation.
    pub fn new(license_content: LicenseContent, content: String) -> (r: License)
        requires
            days_fit(license_content.created_at, license_content.duration_days as int),
        ensures
            r.id@ == license_key(),
            r.issued_license_id == license_content.issued_license_id,
            r.application_name == license_content.application_name,
            r.customer_name == license_content.customer_name,
            r.created_at == license_content.created_at,
            r.license_type == license_content.license_type,
            r.expires_at == after_days(license_content.created_at, license_content.duration_days as int),
            r.last_expires_at is None,
            r.license_content == Some(content),
            r.max_accounts == license_content.max_accounts,
    {
        let expires_at = add_days(license_content.created_at, license_content.duration_days);
        License {
            id: key(),
            issued_license_id: license_content.issued_license_id,
            application_name: license_content.application_name,
            customer_name: license_content.customer_name,
            created_at: license_content.created_at,
            license_type: license_content.license_type,
            expires_at,
            last_expires_at: None,
            license_content: Some(content),
            max_accounts: license_content.max_accounts,
        }
    }

    /// The expiry of a renewal at `now`: while the current license still runs
    /// (and the file does not say otherwise), the new duration is added to the
    /// current expiry; else it counts from the file's creation.
    pub open spec fn renewed_expiry(current: License, license_content: LicenseContent, now: i64) -> int {
        if !license_content.ignore_existing_expiry && current.expires_at >= now {
            after_days(current.expires_at, license_content.duration_days as int)
        } else {
            after_days(license_content.created_at, license_content.duration_days as int)
        }
    }

    /// The day arithmetic of a renewal stays within `i64`: only the expiry that
    /// the renewal counts from matters.
    pub open spec fn renewal_fits(current: License, license_content: LicenseContent, now: i64) -> bool {
        if !license_content.ignore_existing_expiry && current.expires_at >= now {
            days_fit(current.expires_at, license_content.duration_days as int)
        } else {
            days_fit(license_content.created_at, license_content.duration_days as int)
        }
    }

    /// A license renewed from a file at `now`; the replaced expiry is kept.
    pub fn update(current: License, license_content: LicenseContent, content: String, now: i64) -> (r:
        License)
        requires
            License::renewal_fits(current, license_content, now),
        ensures
            r.id@ == license_key(),
            r.issued_license_id == license_content.issued_license_id,
            r.application_name == license_content.application_name,
            r.customer_name == license_content.customer_name,
            r.created_at == license_content.created_at,
            r.license_type == license_content.license_type,
            r.expires_at == License::renewed_expiry(current, license_content, now),
            r.last_expires_at == Some(current.expires_at),
            r.license_content == Some(content),
            r.max_accounts == license_content.max_accounts,
    {
        let expires_at = if !license_content.ignore_existing_expiry && current.expires_at >= now {
            add_days(current.expires_at, license_content.duration_days)
        } else {
            add_days(license_content.created_at, license_content.duration_days)
        };
        License {
            id: key(),
            issued_license_id: license_content.issued_license_id,
            application_name: license_content.application_name,
            customer_name: license_content.customer_name,
            created_at: license_content.created_at,
            license_type: license_content.license_type,
            expires_at,
            last_expires_at: Some(current.expires_at),
            license_content: Some(content),
            max_accounts: license_content.max_accounts,
        }
    }
}

/// Renewing a license that still runs never brings its expiry forward, unless
/// the file says to count from its own creation.
pub proof fn lemma_renewal_extends(current: License, license_content: LicenseContent, now: i64)
    requires
        !license_content.ignore_existing_expiry,
        current.expires_at >= now,
    ensures
        License::renewed_expiry(current, license_content, now) >= current.expires_at,
{
}

/// Why a license file is not installed.
#[derive(Clone, Debug, PartialEq, Eq)]
pub enum LicenseError {
    /// More accounts exist than the license allows: how many, and the limit.
    AccountLimitExceeded(usize, u32),
}

/// The day arithmetic of an installation stays within `i64`, on the path
/// that the installation takes.
pub open spec fn install_fits(
    current: Option<License>,
    license_content: LicenseContent,
    account_count: usize,
    now: i64,
) -> bool {
    match current {
        None => days_fit(license_content.created_at, license_content.duration_days as int),
        Some(c) => match license_content.max_accounts {
            Some(m) if account_count > m => true,
            _ => if c.license_type == LicenseType::Trial {
                days_fit(license_content.created_at, license_content.duration_days as int)
            } else {
                License::renewal_fits(c, license_content, now)
            },
        },
    }
}

/// What installing a decoded license file gives, given the current license and
/// the number of accounts: with a current license the account limit is
/// checked, and a trial is replaced outright while a paid license is renewed.
pub fn install_license(
    current: Option<License>,
    license_content: LicenseContent,
    content: String,
    account_count: usize,
    now: i64,
) -> (r: Result<License, LicenseError>)
    requires
        install_fits(current, license_content, account_count, now),
    ensures
        match current {
            None => r matches Ok(l) && l.expires_at == after_days(
                license_content.created_at,
                license_content.duration_days as int,
            ) && l.last_expires_at is None,
            Some(c) => match license_content.max_accounts {
                Some(m) if account_count > m => r == Err::<License, LicenseError>(
                    LicenseError::AccountLimitExceeded(account_count, m),
                ),
                _ => r matches Ok(l) && if c.license_type == LicenseType::Trial {
                    l.expires_at == after_days(license_content.created_at, license_content.duration_days as int)
                        && l.last_expires_at is None
                } else {
                    l.expires_at == License::renewed_expiry(c, license_content, now)
                        && l.last_expires_at == Some(c.expires_at)
                },
            },
        },
        r matches Ok(l) ==> l.license_type == license_content.license_type && l.max_accounts
            == license_content.max_accounts && l.license_content == Some(content),
{
    match current {
        Some(c) => {
            if let Some(m) = license_content.max_accounts {
                if account_count > m as usize {
                    return Err(LicenseError::AccountLimitExceeded(account_count, m));
                }
            }
            match c.license_type {
                LicenseType::Trial => Ok(License::new(license_content, content)),
                _ => Ok(License::update(c, license_content, content, now)),
            }
        },
        None => Ok(License::new(license_content, content)),
    }
}

/// The text of a license file without its armour lines, trimmed.
pub open spec fn license_token(text: Seq<char>) -> Seq<char> {
    trim(
        replace_seq(
            replace_seq(text, "-----BEGIN LICENSE-----"@, ""@),
            "-----END LICENSE-----"@,
            ""@,
        ),
    )
}

pub fn license_token_of(text: &str) -> (r: String)
    ensures
        r@ == license_token(text@),
{
    proof {
        reveal_strlit("-----BEGIN LICENSE-----");
        reveal_strlit("-----END LICENSE-----");
    }
    let a = replace_all(text, "-----BEGIN LICENSE-----", "");
    let b = replace_all(a.as_str(), "-----END LICENSE-----", "");
    let v = chars_of(b.as_str());
    let (i, j) = trim_bounds(&v);
    string_from_range(&v, i, j)
}

/// The license as last read, and when.
#[derive(Clone, Debug)]
pub struct CachedLicense {
    pub license: License,
    /// Milliseconds since the Unix epoch.
    pub updated_at: i64,
}

/// A license is unusable at `now`: a trial once it expired, a paid license
/// thirty days after.
pub open spec fn license_invalid(l: License, now: i64) -> bool {
    match l.license_type {
        LicenseType::Trial => l.expires_at < now,
        _ => l.expires_at + GRACE_MS < now,
    }
}

impl CachedLicense {
    /// A cache entry that is already stale, so that the next check reads the
    /// license again.
    pub fn new(license: License, now: i64) -> (r: CachedLicense)
        requires
            now >= i64::MIN + 2 * CACHE_TTL,
        ensures
            r.license == license,
            r.updated_at == now - 2 * CACHE_TTL,
    {
        CachedLicense { license, updated_at: now - 2 * CACHE_TTL }
    }

    pub fn is_invalid(&self, now: i64) -> (r: bool)
        requires
            self.license.expires_at + GRACE_MS <= i64::MAX,
        ensures
            r == license_invalid(self.license, now),
    {
        match self.license.license_type {
            LicenseType::Trial => self.license.expires_at < now,
            _ => self.license.expires_at + GRACE_MS < now,
        }
    }

    pub fn is_stale(&self, now: i64) -> (r: bool)
        requires
            i64::MIN <= now - self.updated_at <= i64::MAX,
        ensures
            r == (now - self.updated_at >= CACHE_TTL),
    {
        now - self.updated_at >= CACHE_TTL
    }
}

/// What a license check does with what is cached.
#[derive(Clone, Copy, Debug, PartialEq, Eq, Structural)]
pub enum CacheVerdict {
    /// The cached license has expired.
    Expired,
    /// The cached license is valid and fresh.
    Valid,
    /// Read the license again.
    Reload,
}

/// The first step of a license check at `now`: an expired cached license
/// fails at once, a fresh valid one passes, anything else is read again.
pub fn check_cached(cached: &Option<CachedLicense>, now: i64) -> (r: CacheVerdict)
    requires
        cached matches Some(c) ==> c.license.expires_at + GRACE_MS <= i64::MAX && i64::MIN <= now
            - c.updated_at <= i64::MAX,
    ensures
        match *cached {
            Some(c) => if license_invalid(c.license, now) {
                r == CacheVerdict::Expired
            } else if now - c.updated_at < CACHE_TTL {
                r == CacheVerdict::Valid
            } else {
                r == CacheVerdict::Reload
            },
            None => r == CacheVerdict::Reload,
        },
{
    match cached {
        Some(c) => {
            if c.is_invalid(now) {
                CacheVerdict::Expired
            } else if !c.is_stale(now) {
                CacheVerdict::Valid
            } else {
                CacheVerdict::Reload
            }
        },
        None => CacheVerdict::Reload,
    }
}

/// A trial stops working the moment it expires; a paid license of either kind
/// (Starter or Unlimited) keeps working for thirty days after its expiry.
pub proof fn lemma_paid_licenses_have_grace(l: License, now: i64)
    ensures
        l.license_type == LicenseType::Trial ==> (license_invalid(l, now) <==> l.expires_at < now),
        l.license_type == LicenseType::Starter ==> (license_invalid(l, now) <==> l.expires_at + 30
            * 24 * 60 * 60 * 1000 < now),
        l.license_type == LicenseType::Unlimited ==> (license_invalid(l, now) <==> l.expires_at
            + 30 * 24 * 60 * 60 * 1000 < now),
{
}

} // verus!
