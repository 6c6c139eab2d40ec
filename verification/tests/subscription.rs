use yt_music_downloader::subscription::{
    after_decoding, after_response, status_is_success, subscription_endpoint, unanswered,
};
use yt_music_downloader::{ResponseAction, SubscriptionStatus};

#[test]
fn endpoint_is_fixed() {
    assert_eq!(
        subscription_endpoint(),
        "https://your-vercel-site.vercel.app/api/subscription/verify"
    );
}

#[test]
fn success_is_200_to_299() {
    let mut status: u16 = 0;
    loop {
        assert_eq!(status_is_success(status), (200..300).contains(&status), "{}", status);
        if status == u16::MAX {
            break;
        }
        status += 1;
    }
}

#[test]
fn success_status_asks_for_the_body() {
    for status in [200u16, 201, 204, 299] {
        assert!(matches!(after_response(status), ResponseAction::DecodeBody));
    }
}

#[test]
fn other_status_gives_up_without_the_body() {
    for status in [0u16, 100, 199, 300, 301, 401, 403, 404, 500, 503, 999] {
        match after_response(status) {
            ResponseAction::GiveUp(message) => {
                assert_eq!(message, "Subscription verification failed")
            }
            ResponseAction::DecodeBody => panic!("status {} must not be decoded", status),
        }
    }
}

#[test]
fn request_that_was_not_answered_is_reported() {
    assert_eq!(
        unanswered("connection refused"),
        "Failed to verify subscription: connection refused"
    );
    assert_eq!(unanswered(""), "Failed to verify subscription: ");
}

#[test]
fn decoded_status_is_handed_on() {
    let status = SubscriptionStatus {
        active: true,
        tier: "pro".to_string(),
        downloads_used: 3,
        downloads_limit: Some(100),
    };
    let outcome = after_decoding(Ok(status)).unwrap();
    assert!(outcome.active);
    assert_eq!(outcome.tier, "pro");
    assert_eq!(outcome.downloads_used, 3);
    assert_eq!(outcome.downloads_limit, Some(100));
}

#[test]
fn body_that_cannot_be_decoded_is_reported() {
    let outcome = after_decoding(Err("missing field `tier`".to_string())).unwrap_err();
    assert_eq!(outcome, "Failed to parse response: missing field `tier`");
}

#[test]
fn success_is_what_the_http_client_calls_success() {
    for status in 100u16..=999 {
        let code = reqwest::StatusCode::from_u16(status).unwrap();
        assert_eq!(status_is_success(status), code.is_success(), "{}", status);
    }
}
