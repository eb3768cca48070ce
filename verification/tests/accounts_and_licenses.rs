use rustmailer_core::imap::{
    capability_to_string, check_capabilities, flag_store_item, login_credential, page_window,
    sequence_set, uid_by_message_id, uids_from, AuthType, Credential, FlagChange, FlagStoreError,
    HeaderProblem, LoginError, LookupError, MessageIdEntry, ServerCapability, check_store_target,
    ImapConnectionManager,
};
use rustmailer_core::license::{
    check_cached, install_license, license_token_of, CacheVerdict, CachedLicense, License,
    LicenseContent, LicenseError, LicenseType, DAY_MS,
};
use rustmailer_core::mailbox::{find_folder, MailboxUpdateRequest};
use rustmailer_core::message::{MailerType, RequestError};
use rustmailer_core::oauth2::{
    needs_refresh, pending_expired, refresh_token_after_renewal, upsert_external_token,
    ExternalOAuth2Request, ExternalTokenError, OAuth2AccessToken, OAuth2Flow,
};

#[test]
fn pages_of_a_mailbox_by_sequence_number() {
    assert_eq!(page_window(1, 10, 25, false), Some((1, 10)));
    assert_eq!(page_window(3, 10, 25, false), Some((21, 25)));
    assert_eq!(page_window(4, 10, 25, false), None);
    assert_eq!(page_window(1, 10, 25, true), Some((16, 25)));
    assert_eq!(page_window(3, 10, 25, true), Some((1, 5)));
    assert_eq!(page_window(4, 10, 25, true), None);
    assert_eq!(page_window(1, 10, 0, true), None);
    assert_eq!(sequence_set(16, 25), "16:25");
    assert_eq!(uids_from(7), "7:*");
}

#[test]
fn messages_are_found_by_message_id() {
    let e = |uid: Option<u32>, id: Result<&str, HeaderProblem>| MessageIdEntry {
        uid,
        message_id: id.map(|s| s.to_string()),
    };
    let entries = vec![e(Some(1), Ok("a@x")), e(Some(2), Ok("b@x"))];
    assert_eq!(uid_by_message_id(&entries, "b@x"), Ok(2));
    assert_eq!(uid_by_message_id(&entries, "c@x"), Err(LookupError::NotFound));
    let broken = vec![e(Some(1), Err(HeaderProblem::NoMessageId)), e(Some(2), Ok("b@x"))];
    assert_eq!(
        uid_by_message_id(&broken, "b@x"),
        Err(LookupError::Header(1, HeaderProblem::NoMessageId))
    );
    assert_eq!(uid_by_message_id(&vec![e(None, Ok("a"))], "a"), Err(LookupError::MissingUid));
}

#[test]
fn flag_stores_and_logins() {
    let flags = vec!["\\Seen".to_string(), "\\Flagged".to_string()];
    assert_eq!(
        flag_store_item(FlagChange::Add, &flags),
        Ok("+FLAGS (\\Seen \\Flagged)".to_string())
    );
    assert_eq!(flag_store_item(FlagChange::Overwrite, &flags[..1].to_vec()), Ok("FLAGS (\\Seen)".to_string()));
    assert_eq!(flag_store_item(FlagChange::Remove, &vec![]), Err(FlagStoreError::EmptyFlagList));
    assert_eq!(check_store_target("", "INBOX"), Err(FlagStoreError::EmptyUidSet));
    assert_eq!(check_store_target("1:2", ""), Err(FlagStoreError::EmptyMailboxName));
    assert_eq!(check_store_target("1:2", "INBOX"), Ok(()));
    assert_eq!(capability_to_string(&ServerCapability::Auth("PLAIN".into())), "AUTH=PLAIN");
    assert_eq!(capability_to_string(&ServerCapability::Imap4rev1), "IMAP4rev1");
    assert!(check_capabilities(&vec![ServerCapability::Atom("IDLE".into()), ServerCapability::Imap4rev1]).is_ok());
    assert!(check_capabilities(&vec![ServerCapability::Atom("IDLE".into())]).is_err());
    assert_eq!(
        login_credential(AuthType::Password, Some("p".into()), None),
        Ok(Credential::Password("p".into()))
    );
    assert_eq!(login_credential(AuthType::OAuth2, Some("p".into()), None), Err(LoginError::AccessTokenMissing));
    assert_eq!(ImapConnectionManager::new(4).account_id, 4);
}

fn content(days: u32, ignore: bool, max: Option<u32>) -> LicenseContent {
    LicenseContent {
        issued_license_id: "L-1".into(),
        application_name: None,
        customer_name: Some("ACME".into()),
        created_at: 1_000 * DAY_MS,
        license_type: LicenseType::Starter,
        max_accounts: max,
        duration_days: days,
        ignore_existing_expiry: ignore,
    }
}

#[test]
fn licenses_are_installed_and_renewed() {
    let trial = License::trial(0);
    assert_eq!(trial.expires_at, 14 * DAY_MS);
    assert_eq!(trial.id, "rustmailer_license");
    let fresh = install_license(None, content(30, false, None), "file".into(), 3, 0).unwrap();
    assert_eq!(fresh.expires_at, 1_030 * DAY_MS);
    let over_trial = install_license(Some(trial), content(30, false, None), "f".into(), 3, 0).unwrap();
    assert_eq!(over_trial.last_expires_at, None);
    let running = License { license_type: LicenseType::Starter, expires_at: 2_000 * DAY_MS, ..fresh.clone() };
    let renewed = install_license(Some(running.clone()), content(30, false, None), "f".into(), 3, 1_500 * DAY_MS).unwrap();
    assert_eq!(renewed.expires_at, 2_030 * DAY_MS);
    assert_eq!(renewed.last_expires_at, Some(2_000 * DAY_MS));
    let reset = install_license(Some(running.clone()), content(30, true, None), "f".into(), 3, 1_500 * DAY_MS).unwrap();
    assert_eq!(reset.expires_at, 1_030 * DAY_MS);
    assert_eq!(
        install_license(Some(running), content(30, false, Some(2)), "f".into(), 3, 0),
        Err(LicenseError::AccountLimitExceeded(3, 2))
    );
    assert_eq!(
        license_token_of("-----BEGIN LICENSE-----\n abc.def \n-----END LICENSE-----\n"),
        "abc.def"
    );
}

#[test]
fn the_cached_license_is_checked_before_it_is_reloaded() {
    let l = License { license_type: LicenseType::Trial, expires_at: 100, ..Default::default() };
    let fresh = CachedLicense { license: l.clone(), updated_at: 50 };
    assert_eq!(check_cached(&Some(fresh.clone()), 60), CacheVerdict::Valid);
    assert_eq!(check_cached(&Some(fresh), 101), CacheVerdict::Expired);
    let stale = CachedLicense::new(l.clone(), 60);
    assert_eq!(check_cached(&Some(stale), 60), CacheVerdict::Reload);
    assert_eq!(check_cached(&None, 60), CacheVerdict::Reload);
    let paid = License { license_type: LicenseType::Unlimited, expires_at: 100, ..l };
    let cached = CachedLicense { license: paid, updated_at: 100 };
    assert_eq!(check_cached(&Some(cached), 101), CacheVerdict::Valid);
}

#[test]
fn oauth2_tokens() {
    assert_eq!(OAuth2Flow::new(5).oauth2_id, 5);
    assert!(needs_refresh(1_000_000, 0, 1));
    assert!(!needs_refresh(1_000_000, 0, 0));
    assert!(!needs_refresh(900_000, 0, 1));
    assert!(pending_expired(86_400_001, 0));
    assert!(!pending_expired(86_400_000, 0));
    assert_eq!(refresh_token_after_renewal("old".into(), None), "old");
    assert_eq!(refresh_token_after_renewal("old".into(), Some("new".into())), "new");
    let only_client = ExternalOAuth2Request { oauth2_id: Some(1), access_token: None, refresh_token: None };
    assert_eq!(only_client.check_pairing(), Err(ExternalTokenError::RefreshTokenRequired));
    let only_refresh = ExternalOAuth2Request { oauth2_id: None, access_token: None, refresh_token: Some("r".into()) };
    assert_eq!(only_refresh.check_pairing(), Err(ExternalTokenError::ClientRequired));
    let fresh = upsert_external_token(None, 7, ExternalOAuth2Request { oauth2_id: None, access_token: Some("a".into()), refresh_token: None }, 10);
    assert_eq!(fresh.oauth2_id, 0);
    assert_eq!(fresh.created_at, 10);
    let updated = upsert_external_token(Some(fresh.clone()), 7, ExternalOAuth2Request { oauth2_id: Some(3), access_token: None, refresh_token: Some("r".into()) }, 20);
    assert_eq!(updated, OAuth2AccessToken { oauth2_id: 3, refresh_token: Some("r".into()), updated_at: 20, ..fresh });
}

#[test]
fn mailbox_updates() {
    let r = MailboxUpdateRequest { current_name: "a".into(), new_name: None, label_color: None };
    assert_eq!(r.validate(MailerType::ImapSmtp), Err(RequestError::NewNameRequired));
    assert_eq!(r.validate(MailerType::GmailApi), Err(RequestError::NameOrColorRequired));
    let named = MailboxUpdateRequest { new_name: Some("b".into()), ..r };
    assert_eq!(named.validate(MailerType::GraphApi), Ok(()));
    let names = vec!["Inbox".to_string(), "test1/test2".to_string()];
    assert_eq!(find_folder(&names, "test1/test2"), Some(1));
    assert_eq!(find_folder(&names, "test2"), None);
}
