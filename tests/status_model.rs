use mc_whitelist::status::{Status, StatusKind, FAILURE, NEUTRAL, SUCCESS, WARNING};

const ALL: [StatusKind; 9] = [
    StatusKind::Initial,
    StatusKind::Connection,
    StatusKind::ServerDown,
    StatusKind::PlayerNotFound,
    StatusKind::Whitelisted,
    StatusKind::Success,
    StatusKind::InvalidInput,
    StatusKind::Connecting,
    StatusKind::Unexpected,
];

#[test]
fn from_u8_known_codes() {
    assert_eq!(StatusKind::from_u8(&0), StatusKind::ServerDown);
    assert_eq!(StatusKind::from_u8(&1), StatusKind::PlayerNotFound);
    assert_eq!(StatusKind::from_u8(&2), StatusKind::Whitelisted);
    assert_eq!(StatusKind::from_u8(&3), StatusKind::Success);
}

#[test]
fn from_u8_every_other_byte_is_unexpected() {
    for b in 4..=255u8 {
        assert_eq!(StatusKind::from_u8(&b), StatusKind::Unexpected);
    }
}

#[test]
fn from_u8_former_password_code_is_unexpected() {
    assert_eq!(StatusKind::from_u8(&4), StatusKind::Unexpected);
}

#[test]
fn as_str_messages() {
    assert_eq!(StatusKind::Initial.as_str(), "");
    assert_eq!(StatusKind::Connection.as_str(), "Failed to connect to server");
    assert_eq!(StatusKind::ServerDown.as_str(), "Minecraft server is down");
    assert_eq!(StatusKind::PlayerNotFound.as_str(), "Player doesn't exist");
    assert_eq!(StatusKind::Whitelisted.as_str(), "Already whitelisted");
    assert_eq!(StatusKind::Success.as_str(), "Success");
    assert_eq!(StatusKind::InvalidInput.as_str(), "Invalid input");
    assert_eq!(StatusKind::Connecting.as_str(), "Connecting...");
    assert_eq!(StatusKind::Unexpected.as_str(), "Unexpected server response");
}

#[test]
fn severity_classes() {
    assert_eq!(StatusKind::Success.status(), Status::Success);
    assert_eq!(StatusKind::Whitelisted.status(), Status::Success);
    assert_eq!(StatusKind::Connection.status(), Status::Warning);
    assert_eq!(StatusKind::ServerDown.status(), Status::Warning);
    assert_eq!(StatusKind::Unexpected.status(), Status::Warning);
    assert_eq!(StatusKind::PlayerNotFound.status(), Status::Warning);
    assert_eq!(StatusKind::InvalidInput.status(), Status::Warning);
    assert_eq!(StatusKind::Connecting.status(), Status::Neutral);
    assert_eq!(StatusKind::Initial.status(), Status::Neutral);
}

#[test]
fn severity_colours() {
    assert_eq!(Status::Success.as_str(), "#4dff4d");
    assert_eq!(Status::Warning.as_str(), "#ffe400");
    assert_eq!(Status::Failure.as_str(), "#ff5050");
    assert_eq!(Status::Neutral.as_str(), "#ffffff");
    assert_eq!(SUCCESS, "#4dff4d");
    assert_eq!(WARNING, "#ffe400");
    assert_eq!(FAILURE, "#ff5050");
    assert_eq!(NEUTRAL, "#ffffff");
}

#[test]
fn display_pairs_message_and_class() {
    for k in ALL {
        let (msg, class) = k.display();
        assert_eq!(msg, k.as_str());
        assert_eq!(class, k.status());
    }
    assert_eq!(StatusKind::Whitelisted.display(), ("Already whitelisted", Status::Success));
}

#[test]
fn is_new_all_but_initial() {
    assert!(!StatusKind::Initial.is_new());
    for k in ALL.iter().skip(1) {
        assert!(k.is_new());
    }
}

#[test]
fn displayed_statuses_have_messages() {
    for k in ALL.iter().skip(1) {
        assert!(!k.as_str().is_empty());
    }
}
