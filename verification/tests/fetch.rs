use waifu::fetch::exceeds_limit;
use waifu::fetch::FetchAction;
use waifu::fetch::FetchError;
use waifu::fetch::FetchEvent;
use waifu::fetch::FetchState;
use waifu::fetch::BACKOFF_STEP_MS;
use waifu::fetch::MAX_ATTEMPTS;
use waifu::fetch::MAX_IMAGE_BYTES;

fn responded(status: u16, content_type: &str, content_length: Option<&str>) -> FetchEvent {
    FetchEvent::Responded {
        status,
        content_type: content_type.to_string(),
        content_length: content_length.map(|t| t.to_string()),
    }
}

fn failed(detail: &str) -> FetchEvent {
    FetchEvent::TransportFailed { detail: detail.to_string() }
}

fn too_large(size: u64) -> FetchAction {
    FetchAction::Fail { error: FetchError::TooLarge { size, limit: 20971520 }, dump: false }
}

#[test]
fn limits() {
    assert_eq!(MAX_IMAGE_BYTES, 20971520);
    assert_eq!(MAX_ATTEMPTS, 3);
    assert_eq!(BACKOFF_STEP_MS, 200);
    assert!(!exceeds_limit(0));
    assert!(!exceeds_limit(20971520));
    assert!(exceeds_limit(20971521));
}

#[test]
fn download_begins_with_a_request() {
    let (state, action) = FetchState::start();
    assert_eq!(state, FetchState { attempt: 1 });
    assert_eq!(action, FetchAction::Request);
}

#[test]
fn three_transport_failures_exhaust_the_download() {
    let (state, _) = FetchState::start();
    let (state, action) = state.step(failed("refused"));
    assert_eq!(action, FetchAction::RetryAfter { millis: 200 });
    assert_eq!(state.attempt, 2);
    let (state, action) = state.step(failed("dns"));
    assert_eq!(action, FetchAction::RetryAfter { millis: 400 });
    assert_eq!(state.attempt, 3);
    let (state, action) = state.step(failed("timed out"));
    assert_eq!(
        action,
        FetchAction::Fail {
            error: FetchError::TransportExhausted { attempts: 3, detail: "timed out".to_string() },
            dump: false,
        }
    );
    assert_eq!(state.attempt, 3);
}

#[test]
fn success_after_a_retry_goes_on() {
    let (state, _) = FetchState::start();
    let (state, _) = state.step(failed("refused"));
    let (state, action) = state.step(responded(200, "image/png", Some("1000")));
    assert_eq!(action, FetchAction::ReadBody);
    let (state, action) = state.step(FetchEvent::BodyRead { length: 1000 });
    assert_eq!(action, FetchAction::Decode);
    let (state, action) = state.step(FetchEvent::Decoded);
    assert_eq!(action, FetchAction::Render);
    assert_eq!(state.attempt, 2);
}

#[test]
fn declared_length_over_the_limit_is_too_large() {
    let (state, _) = FetchState::start();
    let (_, action) = state.step(responded(200, "image/png", Some("30000000")));
    assert_eq!(action, too_large(30000000));
    let (_, action) = state.step(responded(200, "", Some("20971521")));
    assert_eq!(action, too_large(20971521));
}

#[test]
fn declared_length_within_the_limit_is_read() {
    let (state, _) = FetchState::start();
    for length in [Some("20971520"), Some("0"), None, Some("many"), Some(""), Some("-5"), Some("99999999999999999999999")] {
        let (_, action) = state.step(responded(200, "image/jpeg", length));
        assert_eq!(action, FetchAction::ReadBody);
    }
}

#[test]
fn body_over_the_limit_is_too_large() {
    let (state, _) = FetchState::start();
    let (_, action) = state.step(FetchEvent::BodyRead { length: 20971521 });
    assert_eq!(action, too_large(20971521));
    let (_, action) = state.step(FetchEvent::BodyRead { length: 20971520 });
    assert_eq!(action, FetchAction::Decode);
}

#[test]
fn other_content_is_rejected_with_a_dump() {
    let (state, _) = FetchState::start();
    let (_, action) = state.step(responded(200, "text/html", Some("10")));
    assert_eq!(
        action,
        FetchAction::Fail {
            error: FetchError::RejectedContent { status: 200, content_type: "text/html".to_string() },
            dump: true,
        }
    );
    let (_, action) = state.step(responded(404, "image/png", None));
    assert_eq!(
        action,
        FetchAction::Fail {
            error: FetchError::RejectedContent { status: 404, content_type: "image/png".to_string() },
            dump: true,
        }
    );
    let (_, action) = state.step(responded(500, "", Some("30000000")));
    assert_eq!(
        action,
        FetchAction::Fail {
            error: FetchError::RejectedContent { status: 500, content_type: String::new() },
            dump: true,
        }
    );
}

#[test]
fn absent_content_type_is_accepted() {
    let (state, _) = FetchState::start();
    let (_, action) = state.step(responded(200, "", None));
    assert_eq!(action, FetchAction::ReadBody);
    let (_, action) = state.step(responded(200, "image/", None));
    assert_eq!(action, FetchAction::ReadBody);
    let (_, action) = state.step(responded(200, "image", None));
    assert!(matches!(action, FetchAction::Fail { dump: true, .. }));
}

#[test]
fn decode_failure_is_final_with_a_dump() {
    let (state, _) = FetchState::start();
    let (after, action) = state.step(FetchEvent::DecodeFailed { detail: "bad magic".to_string() });
    assert_eq!(
        action,
        FetchAction::Fail {
            error: FetchError::DecodeFailed { detail: "bad magic".to_string() },
            dump: true,
        }
    );
    assert_eq!(after, state);
}
