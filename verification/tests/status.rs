use affect_server::error::{AuthError, Code};
use affect_server::services::user::store_status;
use affect_server::stores::user::StoreError;

const ALL: [AuthError; 11] = [
    AuthError::MalformedToken,
    AuthError::UnsupportedAlgorithm,
    AuthError::UnknownSigningKey,
    AuthError::InvalidSignature,
    AuthError::TokenExpired,
    AuthError::IssuerMismatch,
    AuthError::AudienceMismatch,
    AuthError::MissingSubject,
    AuthError::UnknownUser,
    AuthError::UpstreamUnavailable,
    AuthError::MissingCredentials,
];

#[test]
fn connectivity_failures_are_unavailable() {
    let status = AuthError::UpstreamUnavailable.status();
    assert_eq!(status.code, Code::Unavailable);
    assert_eq!(status.message, "authentication is temporarily unavailable");
    assert_eq!(AuthError::UpstreamUnavailable.code(), Code::Unavailable);
}

#[test]
fn every_other_failure_is_unauthenticated() {
    for error in ALL {
        if error != AuthError::UpstreamUnavailable {
            assert_eq!(error.code(), Code::Unauthenticated);
            let status = error.status();
            assert_eq!(status.code, Code::Unauthenticated);
            assert_eq!(status.message, "unauthenticated");
        }
    }
}

#[test]
fn message_tells_no_more_than_the_code() {
    for one in ALL {
        for other in ALL {
            if one.code() == other.code() {
                assert_eq!(one.status().message, other.status().message);
            }
        }
    }
}

#[test]
fn store_failures_have_their_own_statuses() {
    let status = store_status(StoreError::Unavailable);
    assert_eq!(status.code, Code::Unavailable);
    assert_eq!(status.message, "storage is unavailable");
    let status = store_status(StoreError::Failed);
    assert_eq!(status.code, Code::Internal);
    assert_eq!(status.message, "storage failed");
}
