//! The tagged real-time message protocol: message kinds and their wire tags.

use vstd::prelude::*;

verus! {

/// The kind of a real-time message going from the client to the server.
///
/// Each kind travels as a fixed integer, given by [`RequestType::discriminant`].
/// The remote peer hardcodes these integers, so a published one is never
/// reassigned: a new kind takes an integer that no kind has had.
#[derive(Debug, Clone, Copy, PartialEq, Eq, Hash, Structural)]
#[non_exhaustive]
pub enum RequestType {
    /// Should be sent as a keepalive to keep an account marked as online.
    ///
    /// Can for example be sent every 30 seconds.
    SelfOnline,
    FriendRequestSend,
    FriendRequestAccept,
    FriendRequestDecline,
    UnFriend,
    InviteSend,
    InviteExpire,
    RequestInvite,
    RequestInviteAccept,
    RequestInviteDecline,
    BlockUser,
    UnBlockUser,
    GlobalMessage,
    UserMessage,
    SystemGlobalAnnouncement,
    SystemUserAnnouncement,
}

impl RequestType {
    /// The integer that stands for this kind on the wire.
    pub open spec fn spec_discriminant(self) -> int {
        match self {
            RequestType::SelfOnline => 0,
            RequestType::FriendRequestSend => 5,
            RequestType::FriendRequestAccept => 6,
            RequestType::FriendRequestDecline => 7,
            RequestType::UnFriend => 8,
            RequestType::InviteSend => 10,
            RequestType::InviteExpire => 11,
            RequestType::RequestInvite => 15,
            RequestType::RequestInviteAccept => 16,
            RequestType::RequestInviteDecline => 17,
            RequestType::BlockUser => 30,
            RequestType::UnBlockUser => 31,
            RequestType::GlobalMessage => 100,
            RequestType::UserMessage => 101,
            RequestType::SystemGlobalAnnouncement => 110,
            RequestType::SystemUserAnnouncement => 111,
        }
    }

    /// The integer that stands for this kind on the wire.
    pub fn discriminant(&self) -> (d: i64)
        ensures
            d == self.spec_discriminant(),
    {
        match self {
            RequestType::SelfOnline => 0,
            RequestType::FriendRequestSend => 5,
            RequestType::FriendRequestAccept => 6,
            RequestType::FriendRequestDecline => 7,
            RequestType::UnFriend => 8,
            RequestType::InviteSend => 10,
            RequestType::InviteExpire => 11,
            RequestType::RequestInvite => 15,
            RequestType::RequestInviteAccept => 16,
            RequestType::RequestInviteDecline => 17,
            RequestType::BlockUser => 30,
            RequestType::UnBlockUser => 31,
            RequestType::GlobalMessage => 100,
            RequestType::UserMessage => 101,
            RequestType::SystemGlobalAnnouncement => 110,
            RequestType::SystemUserAnnouncement => 111,
        }
    }

    /// The name of this kind.
    pub open spec fn spec_name(self) -> Seq<char> {
        match self {
            RequestType::SelfOnline => "SelfOnline"@,
            RequestType::FriendRequestSend => "FriendRequestSend"@,
            RequestType::FriendRequestAccept => "FriendRequestAccept"@,
            RequestType::FriendRequestDecline => "FriendRequestDecline"@,
            RequestType::UnFriend => "UnFriend"@,
            RequestType::InviteSend => "InviteSend"@,
            RequestType::InviteExpire => "InviteExpire"@,
            RequestType::RequestInvite => "RequestInvite"@,
            RequestType::RequestInviteAccept => "RequestInviteAccept"@,
            RequestType::RequestInviteDecline => "RequestInviteDecline"@,
            RequestType::BlockUser => "BlockUser"@,
            RequestType::UnBlockUser => "UnBlockUser"@,
            RequestType::GlobalMessage => "GlobalMessage"@,
            RequestType::UserMessage => "UserMessage"@,
            RequestType::SystemGlobalAnnouncement => "SystemGlobalAnnouncement"@,
            RequestType::SystemUserAnnouncement => "SystemUserAnnouncement"@,
        }
    }

    /// The name of this kind, for messages meant for people.
    pub fn name(&self) -> (s: &'static str)
        ensures
            s@ == self.spec_name(),
    {
        match self {
            RequestType::SelfOnline => "SelfOnline",
            RequestType::FriendRequestSend => "FriendRequestSend",
            RequestType::FriendRequestAccept => "FriendRequestAccept",
            RequestType::FriendRequestDecline => "FriendRequestDecline",
            RequestType::UnFriend => "UnFriend",
            RequestType::InviteSend => "InviteSend",
            RequestType::InviteExpire => "InviteExpire",
            RequestType::RequestInvite => "RequestInvite",
            RequestType::RequestInviteAccept => "RequestInviteAccept",
            RequestType::RequestInviteDecline => "RequestInviteDecline",
            RequestType::BlockUser => "BlockUser",
            RequestType::UnBlockUser => "UnBlockUser",
            RequestType::GlobalMessage => "GlobalMessage",
            RequestType::UserMessage => "UserMessage",
            RequestType::SystemGlobalAnnouncement => "SystemGlobalAnnouncement",
            RequestType::SystemUserAnnouncement => "SystemUserAnnouncement",
        }
    }
}

/// Whether some kind of this build travels as `raw`.
pub open spec fn is_known(raw: i64) -> bool {
    exists|t: RequestType| #[trigger] t.spec_discriminant() == raw
}

/// What an integer read from the wire stands for.
///
/// The remote peer may speak a newer protocol than this build, so an integer
/// that no kind of this build has is an outcome of its own, not an error.
#[derive(Debug, Clone, Copy, PartialEq, Eq, Hash, Structural)]
pub enum RequestKind {
    /// The kind of this build that travels as the integer read.
    Known(RequestType),
    /// No kind of this build travels as the integer read, which is kept.
    Unrecognized(i64),
}

impl RequestKind {
    /// `Known(t)` for the one kind `t` that travels as `raw`; `Unrecognized(raw)`
    /// where there is none.
    pub open spec fn spec_resolve(raw: i64) -> RequestKind {
        if is_known(raw) {
            RequestKind::Known(choose|t: RequestType| #[trigger] t.spec_discriminant() == raw)
        } else {
            RequestKind::Unrecognized(raw)
        }
    }

    /// Tells which kind an integer read from the wire stands for.
    ///
    /// Never fails: an integer of no kind of this build comes back as
    /// [`RequestKind::Unrecognized`], with the integer in it.
    pub fn resolve(raw: i64) -> (kind: RequestKind)
        ensures
            kind == Self::spec_resolve(raw),
            kind is Known <==> is_known(raw),
            kind matches RequestKind::Known(t) ==> t.spec_discriminant() == raw,
            kind matches RequestKind::Unrecognized(v) ==> v == raw,
    {
        let found: Option<RequestType> = match raw {
            0 => Some(RequestType::SelfOnline),
            5 => Some(RequestType::FriendRequestSend),
            6 => Some(RequestType::FriendRequestAccept),
            7 => Some(RequestType::FriendRequestDecline),
            8 => Some(RequestType::UnFriend),
            10 => Some(RequestType::InviteSend),
            11 => Some(RequestType::InviteExpire),
            15 => Some(RequestType::RequestInvite),
            16 => Some(RequestType::RequestInviteAccept),
            17 => Some(RequestType::RequestInviteDecline),
            30 => Some(RequestType::BlockUser),
            31 => Some(RequestType::UnBlockUser),
            100 => Some(RequestType::GlobalMessage),
            101 => Some(RequestType::UserMessage),
            110 => Some(RequestType::SystemGlobalAnnouncement),
            111 => Some(RequestType::SystemUserAnnouncement),
            _ => None,
        };
        match found {
            Some(t) => {
                proof {
                    assert(t.spec_discriminant() == raw);
                    discriminants_are_distinct(
                        t,
                        choose|u: RequestType| #[trigger] u.spec_discriminant() == raw,
                    );
                }
                RequestKind::Known(t)
            },
            None => {
                assert(forall|t: RequestType| #[trigger] t.spec_discriminant() != raw);
                RequestKind::Unrecognized(raw)
            },
        }
    }

    /// The integer that this outcome was read from.
    pub open spec fn spec_discriminant(self) -> int {
        match self {
            RequestKind::Known(t) => t.spec_discriminant(),
            RequestKind::Unrecognized(raw) => raw as int,
        }
    }

    /// The integer that this outcome was read from.
    pub fn discriminant(&self) -> (d: i64)
        ensures
            d == self.spec_discriminant(),
    {
        match self {
            RequestKind::Known(t) => t.discriminant(),
            RequestKind::Unrecognized(raw) => *raw,
        }
    }
}

/// No two kinds travel as the same integer.
pub proof fn discriminants_are_distinct(a: RequestType, b: RequestType)
    ensures
        a.spec_discriminant() == b.spec_discriminant() ==> a == b,
{
}

/// Every kind of this build is recognised when its integer comes back from
/// the wire, and as itself.
pub proof fn resolve_recovers_kind(t: RequestType)
    ensures
        is_known(t.spec_discriminant() as i64),
        RequestKind::spec_resolve(t.spec_discriminant() as i64) == RequestKind::Known(t),
{
    let raw = t.spec_discriminant() as i64;
    assert(t.spec_discriminant() == raw);
    discriminants_are_distinct(t, choose|u: RequestType| #[trigger] u.spec_discriminant() == raw);
}

/// Whatever integer is read, the outcome keeps it: resolving loses nothing.
pub proof fn resolve_keeps_integer(raw: i64)
    ensures
        RequestKind::spec_resolve(raw).spec_discriminant() == raw,
{
}

/// A payload that can be sent as a real-time message.
///
/// The kind is a matter of the payload's type: it is asked of the payload and
/// never handed in beside it, so the two cannot disagree.
///
/// An impl gives the kind twice: as `spec_request_type`, which contracts
/// speak of, and as `request_type`, which runs. The two have to agree, and a
/// payload keeps its kind for as long as it lives.
pub trait Requestable {
    /// The kind that a message with this payload has.
    spec fn spec_request_type(&self) -> RequestType;

    /// The kind that a message with this payload has.
    fn request_type(&self) -> (kind: RequestType)
        ensures
            kind == self.spec_request_type(),
    ;
}

/// Marks the connected user account as being online. It has no fields.
#[derive(Debug, Clone, Copy, PartialEq, Eq, Hash, Structural)]
pub struct Online;

impl Requestable for Online {
    open spec fn spec_request_type(&self) -> RequestType {
        RequestType::SelfOnline
    }

    fn request_type(&self) -> (kind: RequestType) {
        RequestType::SelfOnline
    }
}

/// A real-time message: the payload with its kind in front of it.
///
/// It is made when a message is written to the wire or has been read from it,
/// and is not meant to be kept.
#[derive(Debug, Clone, PartialEq, Eq, Hash)]
pub struct RequestWrapper<T> {
    /// Indicates the message's kind.
    pub request_type: RequestType,
    /// The actual data of the message.
    pub data: T,
}

/// What came of reading a message whose integer tag could be read.
#[derive(Debug, Clone, PartialEq, Eq, Hash)]
pub enum Inbound<T> {
    /// A message of a kind of this build, with its payload.
    Message(RequestWrapper<T>),
    /// A message of a kind that this build does not have, with its integer
    /// tag. The connection goes on; the caller may drop the message.
    Unrecognized(i64),
}

/// The tag of a message named a kind of this build, and the payload was not
/// one of that kind.
#[derive(Debug, Clone, Copy, PartialEq, Eq, Hash, Structural)]
pub struct MalformedPayload {
    /// The kind that the tag named.
    pub request_type: RequestType,
}

impl<T: Requestable> RequestWrapper<T> {
    /// Whether the kind in front is the payload's own.
    pub open spec fn well_tagged(&self) -> bool {
        self.request_type == self.data.spec_request_type()
    }

    /// The message that carries `data`.
    pub open spec fn spec_new(data: T) -> Self {
        RequestWrapper { request_type: data.spec_request_type(), data }
    }

    /// Puts the payload's kind in front of it. This never fails.
    pub fn new(data: T) -> (message: Self)
        ensures
            message == Self::spec_new(data),
            message.well_tagged(),
    {
        let request_type = data.request_type();
        RequestWrapper { request_type, data }
    }

    /// The integer that travels in front of the payload.
    pub fn tag(&self) -> (raw: i64)
        ensures
            raw == self.request_type.spec_discriminant(),
    {
        self.request_type.discriminant()
    }

    /// What reading a message comes to, from the integer `raw` in front of it
    /// and the payload, which is `None` where the bytes were not a `T`.
    ///
    /// - No kind of this build travels as `raw`: the outcome is
    ///   `Unrecognized(raw)`, whatever the payload.
    /// - Else, where the payload is there and of the kind that `raw` names:
    ///   the message.
    /// - Else the payload is malformed for the kind that `raw` names.
    pub open spec fn spec_decode(raw: i64, payload: Option<T>) -> Result<
        Inbound<T>,
        MalformedPayload,
    > {
        match RequestKind::spec_resolve(raw) {
            RequestKind::Unrecognized(_) => Ok(Inbound::Unrecognized(raw)),
            RequestKind::Known(request_type) => match payload {
                Some(data) if data.spec_request_type() == request_type => Ok(
                    Inbound::Message(RequestWrapper { request_type, data }),
                ),
                _ => Err(MalformedPayload { request_type }),
            },
        }
    }

    /// Reads a message from the integer `raw` that stood in front of it and
    /// from what the caller made of the payload's bytes: `Some` where they
    /// were a `T`, `None` where they were not.
    ///
    /// An integer of no kind of this build gives `Ok(Inbound::Unrecognized)`,
    /// never an error. The error is for a payload that is missing, or of
    /// another kind than the integer names.
    pub fn decode(raw: i64, payload: Option<T>) -> (outcome: Result<Inbound<T>, MalformedPayload>)
        ensures
            outcome == Self::spec_decode(raw, payload),
            outcome matches Ok(Inbound::Message(message)) ==> message.well_tagged()
                && message.request_type.spec_discriminant() == raw,
    {
        match RequestKind::resolve(raw) {
            RequestKind::Unrecognized(_) => Ok(Inbound::Unrecognized(raw)),
            RequestKind::Known(request_type) => match payload {
                Some(data) => {
                    if data.request_type() == request_type {
                        Ok(Inbound::Message(RequestWrapper { request_type, data }))
                    } else {
                        Err(MalformedPayload { request_type })
                    }
                },
                None => Err(MalformedPayload { request_type }),
            },
        }
    }
}

/// A message that was written from a payload is read back as it was: the
/// payload comes back unchanged, under its own kind.
pub proof fn decode_inverts_new<T: Requestable>(data: T)
    ensures
        RequestWrapper::<T>::spec_decode(
            RequestWrapper::spec_new(data).request_type.spec_discriminant() as i64,
            Some(RequestWrapper::spec_new(data).data),
        ) == Ok::<Inbound<T>, MalformedPayload>(Inbound::Message(RequestWrapper::spec_new(data))),
        RequestWrapper::spec_new(data).data == data,
{
    resolve_recovers_kind(data.spec_request_type());
}

/// A message whose integer names no kind of this build is read as
/// unrecognised, with that integer: never as an error, and never as a message
/// of some kind, whether its payload could be read or not.
pub proof fn decode_of_unknown_tag<T: Requestable>(raw: i64, payload: Option<T>)
    requires
        !is_known(raw),
    ensures
        RequestWrapper::<T>::spec_decode(raw, payload) == Ok::<Inbound<T>, MalformedPayload>(
            Inbound::Unrecognized(raw),
        ),
{
}

/// Under an integer that names a kind of this build, reading fails exactly
/// where the payload is missing or of another kind.
pub proof fn decode_fails_only_on_payload<T: Requestable>(raw: i64, payload: Option<T>)
    requires
        is_known(raw),
    ensures
        RequestWrapper::<T>::spec_decode(raw, payload) is Err <==> !(payload matches Some(data)
            && data.spec_request_type().spec_discriminant() == raw),
{
    if let Some(data) = payload {
        resolve_recovers_kind(data.spec_request_type());
        let named = choose|t: RequestType| #[trigger] t.spec_discriminant() == raw;
        discriminants_are_distinct(named, data.spec_request_type());
    }
}

} // verus!
