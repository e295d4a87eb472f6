use chilloutvr::{
    Inbound, MalformedPayload, Online, RequestKind, RequestType, RequestWrapper, Requestable,
};

fn kinds() -> Vec<(RequestType, i64, &'static str)> {
    vec![
        (RequestType::SelfOnline, 0, "SelfOnline"),
        (RequestType::FriendRequestSend, 5, "FriendRequestSend"),
        (RequestType::FriendRequestAccept, 6, "FriendRequestAccept"),
        (RequestType::FriendRequestDecline, 7, "FriendRequestDecline"),
        (RequestType::UnFriend, 8, "UnFriend"),
        (RequestType::InviteSend, 10, "InviteSend"),
        (RequestType::InviteExpire, 11, "InviteExpire"),
        (RequestType::RequestInvite, 15, "RequestInvite"),
        (RequestType::RequestInviteAccept, 16, "RequestInviteAccept"),
        (RequestType::RequestInviteDecline, 17, "RequestInviteDecline"),
        (RequestType::BlockUser, 30, "BlockUser"),
        (RequestType::UnBlockUser, 31, "UnBlockUser"),
        (RequestType::GlobalMessage, 100, "GlobalMessage"),
        (RequestType::UserMessage, 101, "UserMessage"),
        (RequestType::SystemGlobalAnnouncement, 110, "SystemGlobalAnnouncement"),
        (RequestType::SystemUserAnnouncement, 111, "SystemUserAnnouncement"),
    ]
}

/// A payload of a kind other than the heartbeat's.
#[derive(Debug, Clone, PartialEq, Eq)]
struct Announcement {
    text: String,
    to_all: bool,
}

impl Requestable for Announcement {
    fn spec_request_type(&self) -> RequestType {
        self.request_type()
    }

    fn request_type(&self) -> RequestType {
        if self.to_all {
            RequestType::SystemGlobalAnnouncement
        } else {
            RequestType::SystemUserAnnouncement
        }
    }
}

fn announcement(text: &str, to_all: bool) -> Announcement {
    Announcement { text: text.to_string(), to_all }
}

#[test]
fn online_heartbeat_is_tagged_zero() {
    let message = RequestWrapper::new(Online);
    assert_eq!(message, RequestWrapper { request_type: RequestType::SelfOnline, data: Online });
    assert_eq!(message.tag(), 0);
    assert_eq!(message.request_type.discriminant(), 0);
    assert_eq!(message.data, Online);
    assert_eq!(Online.request_type(), RequestType::SelfOnline);
}

#[test]
fn every_kind_has_its_integer() {
    for (kind, raw, _) in kinds() {
        assert_eq!(kind.discriminant(), raw);
    }
}

#[test]
fn every_kind_has_its_name() {
    for (kind, _, name) in kinds() {
        assert_eq!(kind.name(), name);
    }
}

#[test]
fn integers_are_not_shared() {
    let all = kinds();
    for (i, (_, a, _)) in all.iter().enumerate() {
        for (j, (_, b, _)) in all.iter().enumerate() {
            assert_eq!(i == j, a == b);
        }
    }
}

#[test]
fn every_kind_is_resolved_from_its_integer() {
    for (kind, raw, _) in kinds() {
        assert_eq!(RequestKind::resolve(raw), RequestKind::Known(kind));
        assert_eq!(RequestKind::resolve(kind.discriminant()), RequestKind::Known(kind));
        assert_eq!(RequestKind::resolve(raw).discriminant(), raw);
    }
}

#[test]
fn other_integers_are_unrecognized() {
    let known: Vec<i64> = kinds().iter().map(|k| k.1).collect();
    for raw in -300i64..300 {
        if !known.contains(&raw) {
            assert_eq!(RequestKind::resolve(raw), RequestKind::Unrecognized(raw));
            assert_eq!(RequestKind::resolve(raw).discriminant(), raw);
        }
    }
    for raw in [1, 4, 9, 12, 112, 256, -1, i64::MAX, i64::MIN] {
        assert_eq!(RequestKind::resolve(raw), RequestKind::Unrecognized(raw));
    }
}

#[test]
fn heartbeat_is_read_back() {
    let sent = RequestWrapper::new(Online);
    let read = RequestWrapper::decode(sent.tag(), Some(sent.data));
    assert_eq!(read, Ok(Inbound::Message(RequestWrapper::new(Online))));
}

#[test]
fn announcement_is_read_back() {
    for to_all in [true, false] {
        let sent = RequestWrapper::new(announcement("maintenance at noon", to_all));
        assert_eq!(sent.tag(), if to_all { 110 } else { 111 });
        let read = RequestWrapper::decode(sent.tag(), Some(sent.data.clone()));
        match read {
            Ok(Inbound::Message(message)) => {
                assert_eq!(message.data, announcement("maintenance at noon", to_all));
                assert_eq!(message.request_type, sent.request_type);
                assert_eq!(message, sent);
            }
            other => panic!("not read back: {:?}", other),
        }
    }
}

#[test]
fn unknown_tag_is_unrecognized_with_or_without_payload() {
    for raw in [1, 9, 112, 4096, -1, i64::MAX] {
        assert_eq!(RequestWrapper::decode(raw, Some(Online)), Ok(Inbound::Unrecognized(raw)));
        assert_eq!(RequestWrapper::<Online>::decode(raw, None), Ok(Inbound::Unrecognized(raw)));
        assert_eq!(
            RequestWrapper::decode(raw, Some(announcement("x", true))),
            Ok(Inbound::Unrecognized(raw))
        );
    }
}

#[test]
fn unreadable_payload_under_known_tag_is_malformed() {
    for (kind, raw, _) in kinds() {
        assert_eq!(
            RequestWrapper::<Online>::decode(raw, None),
            Err(MalformedPayload { request_type: kind })
        );
    }
}

#[test]
fn payload_of_another_kind_is_malformed() {
    assert_eq!(
        RequestWrapper::decode(5, Some(Online)),
        Err(MalformedPayload { request_type: RequestType::FriendRequestSend })
    );
    assert_eq!(
        RequestWrapper::decode(0, Some(announcement("x", true))),
        Err(MalformedPayload { request_type: RequestType::SelfOnline })
    );
    assert_eq!(
        RequestWrapper::decode(110, Some(announcement("x", false))),
        Err(MalformedPayload { request_type: RequestType::SystemGlobalAnnouncement })
    );
}

#[test]
fn unrecognized_differs_from_every_known_kind() {
    for (kind, raw, _) in kinds() {
        assert_ne!(RequestKind::Unrecognized(raw), RequestKind::Known(kind));
        assert_ne!(RequestKind::resolve(raw + 1000), RequestKind::Known(kind));
    }
}
