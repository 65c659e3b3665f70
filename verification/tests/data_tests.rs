use open_wechat::credential::{Credential, CredentialBuilder, Credentials};
use open_wechat::error::{Error, ErrorCode};
use open_wechat::gate::RefreshGate;
use open_wechat::response::Response;
use open_wechat::session::Session;
use open_wechat::token::{FetchedToken, TokenState};
use open_wechat::user::{ContactBuilder, PhoneInfo, UserBuilder, UserInfo, WatermarkBuilder};

fn watermark_builder() -> WatermarkBuilder {
    WatermarkBuilder { app_id: "wx1234".to_string(), timestamp: 1_700_000_000 }
}

#[test]
fn credential_getters_return_the_built_fields() {
    let c = CredentialBuilder {
        open_id: "oid".to_string(),
        session_key: "skey".to_string(),
        union_id: Some("uid".to_string()),
    }
    .build();
    assert_eq!(c.open_id(), "oid");
    assert_eq!(c.session_key(), "skey");
    assert_eq!(c.union_id(), Some("uid"));

    let without = CredentialBuilder {
        open_id: "o".to_string(),
        session_key: "s".to_string(),
        union_id: None,
    }
    .build();
    assert_eq!(without.union_id(), None);
}

#[test]
fn credentials_and_session_getters() {
    let c = Credentials::new("open".to_string(), "key".to_string());
    assert_eq!(c.open_id(), "open");

    let s = Session::new("open2".to_string(), "key2".to_string());
    assert_eq!(s.open_id(), "open2");
    assert_eq!(s.session_key(), "key2");
}

#[test]
fn user_builder_carries_every_field() {
    let u = UserBuilder {
        nickname: "nick".to_string(),
        gender: 1,
        country: "CN".to_string(),
        province: "Guangdong".to_string(),
        city: "Shenzhen".to_string(),
        avatar: "https://example.invalid/a.png".to_string(),
        watermark: watermark_builder(),
    }
    .build();
    assert_eq!(u.nickname(), "nick");
    assert_eq!(u.gender(), 1);
    assert_eq!(u.country(), "CN");
    assert_eq!(u.province(), "Guangdong");
    assert_eq!(u.city(), "Shenzhen");
    assert_eq!(u.avatar(), "https://example.invalid/a.png");
    assert_eq!(u.app_id(), "wx1234");
    assert_eq!(u.timestamp(), 1_700_000_000);
}

#[test]
fn contact_builder_carries_every_field() {
    let c = ContactBuilder {
        phone: "+8613800000000".to_string(),
        pure_phone: "13800000000".to_string(),
        country_code: "86".to_string(),
        watermark: watermark_builder(),
    }
    .build();
    assert_eq!(c.phone(), "+8613800000000");
    assert_eq!(c.pure_phone(), "13800000000");
    assert_eq!(c.country_code(), "86");
    assert_eq!(c.app_id(), "wx1234");
    assert_eq!(c.timestamp(), 1_700_000_000);
}

#[test]
fn user_info_and_phone_info_getters() {
    let w = watermark_builder().build();
    let info = UserInfo::new(
        "nick".to_string(),
        2,
        "city".to_string(),
        "province".to_string(),
        "country".to_string(),
        "avatar".to_string(),
        w.clone(),
    );
    assert_eq!(info.nick_name(), "nick");
    assert_eq!(info.gender(), 2);
    assert_eq!(info.city(), "city");
    assert_eq!(info.province(), "province");
    assert_eq!(info.country(), "country");
    assert_eq!(info.avatar_url(), "avatar");
    assert_eq!(info.watermark().app_id(), "wx1234");
    assert_eq!(info.app_id(), "wx1234");
    assert_eq!(info.timestamp(), 1_700_000_000);

    let p = PhoneInfo::new(
        "+8613800000000".to_string(),
        "13800000000".to_string(),
        "86".to_string(),
        w,
    );
    assert_eq!(p.phone_number(), "+8613800000000");
    assert_eq!(p.pure_phone_number(), "13800000000");
    assert_eq!(p.country_code(), "86");
    assert_eq!(p.watermark().timestamp(), 1_700_000_000);
}

#[test]
fn token_state_expiry() {
    let f = FetchedToken::new("secret".to_string(), 3600).unwrap();
    let state = TokenState::new(f, 100);
    assert_eq!(state.secret(), "secret");
    assert_eq!(state.expires_at(), 3700);
    assert!(!state.is_expired(3699));
    assert!(state.is_expired(3700));
    assert!(state.is_expired(3701));
}

#[test]
fn gate_acquire_and_release() {
    let mut g = RefreshGate::new();
    assert!(!g.leader_active());
    assert!(g.try_acquire());
    assert!(g.leader_active());
    assert!(!g.try_acquire());
    g.release(false);
    assert!(!g.leader_active());
    assert!(g.try_acquire());
    g.release(true);
    assert!(!g.leader_active());
}

#[test]
fn response_success_is_extracted() {
    let r: Response<u32> = Response::Success { data: 7 };
    assert_eq!(r.get().unwrap(), 7);
    let r2: Response<u32> = Response::Success { data: 9 };
    assert_eq!(r2.extract().unwrap(), 9);
}

#[test]
fn response_failure_maps_each_code_to_its_error() {
    let cases: Vec<(ErrorCode, fn(&Error) -> bool)> = vec![
        (ErrorCode::System, |e| matches!(e, Error::System(_))),
        (ErrorCode::InvalidCredential, |e| matches!(e, Error::InvalidCredential(_))),
        (ErrorCode::InvalidGrantType, |e| matches!(e, Error::InvalidGrantType(_))),
        (ErrorCode::InvalidAppId, |e| matches!(e, Error::InvalidAppId(_))),
        (ErrorCode::InvalidCode, |e| matches!(e, Error::InvalidCode(_))),
        (ErrorCode::InvalidSecret, |e| matches!(e, Error::InvalidSecret(_))),
        (ErrorCode::ForbiddenIp, |e| matches!(e, Error::ForbiddenIp(_))),
        (ErrorCode::CodeBlocked, |e| matches!(e, Error::CodeBlocked(_))),
        (ErrorCode::SecretFrozen, |e| matches!(e, Error::SecretFrozen(_))),
        (ErrorCode::MissingAppId, |e| matches!(e, Error::MissingAppId(_))),
        (ErrorCode::MissingSecret, |e| matches!(e, Error::MissingSecret(_))),
        (ErrorCode::MissingCode, |e| matches!(e, Error::MissingCode(_))),
        (ErrorCode::RequiredPostMethod, |e| matches!(e, Error::RequiredPostMethod(_))),
        (ErrorCode::DailyRequestLimitExceeded, |e| {
            matches!(e, Error::DailyRequestLimitExceeded(_))
        }),
        (ErrorCode::RateLimitExceeded, |e| matches!(e, Error::RateLimitExceeded(_))),
        (ErrorCode::ForbiddenToken, |e| matches!(e, Error::ForbiddenToken(_))),
        (ErrorCode::AccountFrozen, |e| matches!(e, Error::AccountFrozen(_))),
        (ErrorCode::ThirdPartyToken, |e| matches!(e, Error::ThirdPartyToken(_))),
        (ErrorCode::ConfirmRequired, |e| matches!(e, Error::ConfirmRequired(_))),
        (ErrorCode::RequestDeniedOneDay, |e| matches!(e, Error::RequestDeniedOneDay(_))),
        (ErrorCode::RequestDeniedOneHour, |e| matches!(e, Error::RequestDeniedOneHour(_))),
    ];
    for (code, is_expected) in cases {
        let r: Response<u32> = Response::Error { code, message: "msg".to_string() };
        let e = r.get().unwrap_err();
        assert!(is_expected(&e), "code {:?} mapped to {:?}", code, e);
    }
}

#[test]
fn failure_message_is_carried_through() {
    let r: Response<u32> = Response::Error {
        code: ErrorCode::RateLimitExceeded,
        message: "slow down".to_string(),
    };
    match r.get() {
        Err(Error::RateLimitExceeded(m)) => assert_eq!(m, "slow down"),
        other => panic!("unexpected mapping: {:?}", other),
    }
}

#[test]
fn error_codes_round_trip_through_their_numbers() {
    let all = [
        ErrorCode::System,
        ErrorCode::InvalidCredential,
        ErrorCode::InvalidGrantType,
        ErrorCode::InvalidAppId,
        ErrorCode::InvalidCode,
        ErrorCode::InvalidSecret,
        ErrorCode::ForbiddenIp,
        ErrorCode::CodeBlocked,
        ErrorCode::SecretFrozen,
        ErrorCode::MissingAppId,
        ErrorCode::MissingSecret,
        ErrorCode::MissingCode,
        ErrorCode::RequiredPostMethod,
        ErrorCode::DailyRequestLimitExceeded,
        ErrorCode::RateLimitExceeded,
        ErrorCode::ForbiddenToken,
        ErrorCode::AccountFrozen,
        ErrorCode::ThirdPartyToken,
        ErrorCode::ConfirmRequired,
        ErrorCode::RequestDeniedOneDay,
        ErrorCode::RequestDeniedOneHour,
    ];
    for code in all {
        assert_eq!(ErrorCode::from_code(code.code()), Some(code));
    }
    assert_eq!(ErrorCode::System.code(), -1);
    assert_eq!(ErrorCode::InvalidCredential.code(), 40001);
    assert_eq!(ErrorCode::RateLimitExceeded.code(), 45011);
    assert_eq!(ErrorCode::from_code(0), None);
    assert_eq!(ErrorCode::from_code(123456), None);
}
