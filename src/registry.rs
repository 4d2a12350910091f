//! The packet id of each kind of control message.
use vstd::prelude::*;

verus! {

/// Number of packet kinds that this build knows; their ids are `0..KIND_COUNT`.
pub const KIND_COUNT: u16 = 29;

/// The kinds of control message, in the order that assigns their packet ids.
///
/// The order is part of the wire format: new kinds are only ever appended.
#[derive(Clone, Copy, Debug, PartialEq, Eq, Structural)]
#[allow(non_camel_case_types)]
pub enum PacketKind {
    Version,
    UDPTunnel,
    Authenticate,
    Ping,
    Reject,
    ServerSync,
    ChannelRemove,
    ChannelState,
    UserRemove,
    UserState,
    BanList,
    TextMessage,
    PermissionDenied,
    ACL,
    QueryUsers,
    CryptSetup,
    ContextActionModify,
    ContextAction,
    UserList,
    VoiceTarget,
    PermissionQuery,
    CodecVersion,
    UserStats,
    RequestBlob,
    ServerConfig,
    SuggestConfig,
    WebRTC,
    IceCandidate,
    TalkingState,
}

/// The packet id of `k`: its place in the declaration order.
pub open spec fn kind_tag(k: PacketKind) -> u16 {
    match k {
        PacketKind::Version => 0,
        PacketKind::UDPTunnel => 1,
        PacketKind::Authenticate => 2,
        PacketKind::Ping => 3,
        PacketKind::Reject => 4,
        PacketKind::ServerSync => 5,
        PacketKind::ChannelRemove => 6,
        PacketKind::ChannelState => 7,
        PacketKind::UserRemove => 8,
        PacketKind::UserState => 9,
        PacketKind::BanList => 10,
        PacketKind::TextMessage => 11,
        PacketKind::PermissionDenied => 12,
        PacketKind::ACL => 13,
        PacketKind::QueryUsers => 14,
        PacketKind::CryptSetup => 15,
        PacketKind::ContextActionModify => 16,
        PacketKind::ContextAction => 17,
        PacketKind::UserList => 18,
        PacketKind::VoiceTarget => 19,
        PacketKind::PermissionQuery => 20,
        PacketKind::CodecVersion => 21,
        PacketKind::UserStats => 22,
        PacketKind::RequestBlob => 23,
        PacketKind::ServerConfig => 24,
        PacketKind::SuggestConfig => 25,
        PacketKind::WebRTC => 26,
        PacketKind::IceCandidate => 27,
        PacketKind::TalkingState => 28,
    }
}

/// The kind that packet id `t` stands for, if any.
pub open spec fn tag_kind(t: u16) -> Option<PacketKind> {
    match t {
        0 => Some(PacketKind::Version),
        1 => Some(PacketKind::UDPTunnel),
        2 => Some(PacketKind::Authenticate),
        3 => Some(PacketKind::Ping),
        4 => Some(PacketKind::Reject),
        5 => Some(PacketKind::ServerSync),
        6 => Some(PacketKind::ChannelRemove),
        7 => Some(PacketKind::ChannelState),
        8 => Some(PacketKind::UserRemove),
        9 => Some(PacketKind::UserState),
        10 => Some(PacketKind::BanList),
        11 => Some(PacketKind::TextMessage),
        12 => Some(PacketKind::PermissionDenied),
        13 => Some(PacketKind::ACL),
        14 => Some(PacketKind::QueryUsers),
        15 => Some(PacketKind::CryptSetup),
        16 => Some(PacketKind::ContextActionModify),
        17 => Some(PacketKind::ContextAction),
        18 => Some(PacketKind::UserList),
        19 => Some(PacketKind::VoiceTarget),
        20 => Some(PacketKind::PermissionQuery),
        21 => Some(PacketKind::CodecVersion),
        22 => Some(PacketKind::UserStats),
        23 => Some(PacketKind::RequestBlob),
        24 => Some(PacketKind::ServerConfig),
        25 => Some(PacketKind::SuggestConfig),
        26 => Some(PacketKind::WebRTC),
        27 => Some(PacketKind::IceCandidate),
        28 => Some(PacketKind::TalkingState),
        _ => None,
    }
}

/// The id of the kind that carries tunnelled voice packets.
pub const UDP_TUNNEL: u16 = 1;

impl PacketKind {
    /// The packet id of this kind.
    pub fn tag(&self) -> (r: u16)
        ensures
            r == kind_tag(*self),
    {
        match self {
            PacketKind::Version => 0,
            PacketKind::UDPTunnel => 1,
            PacketKind::Authenticate => 2,
            PacketKind::Ping => 3,
            PacketKind::Reject => 4,
            PacketKind::ServerSync => 5,
            PacketKind::ChannelRemove => 6,
            PacketKind::ChannelState => 7,
            PacketKind::UserRemove => 8,
            PacketKind::UserState => 9,
            PacketKind::BanList => 10,
            PacketKind::TextMessage => 11,
            PacketKind::PermissionDenied => 12,
            PacketKind::ACL => 13,
            PacketKind::QueryUsers => 14,
            PacketKind::CryptSetup => 15,
            PacketKind::ContextActionModify => 16,
            PacketKind::ContextAction => 17,
            PacketKind::UserList => 18,
            PacketKind::VoiceTarget => 19,
            PacketKind::PermissionQuery => 20,
            PacketKind::CodecVersion => 21,
            PacketKind::UserStats => 22,
            PacketKind::RequestBlob => 23,
            PacketKind::ServerConfig => 24,
            PacketKind::SuggestConfig => 25,
            PacketKind::WebRTC => 26,
            PacketKind::IceCandidate => 27,
            PacketKind::TalkingState => 28,
        }
    }

    /// The kind with packet id `t`, or `None` where no kind has that id.
    pub fn from_tag(t: u16) -> (r: Option<PacketKind>)
        ensures
            r == tag_kind(t),
    {
        match t {
            0 => Some(PacketKind::Version),
            1 => Some(PacketKind::UDPTunnel),
            2 => Some(PacketKind::Authenticate),
            3 => Some(PacketKind::Ping),
            4 => Some(PacketKind::Reject),
            5 => Some(PacketKind::ServerSync),
            6 => Some(PacketKind::ChannelRemove),
            7 => Some(PacketKind::ChannelState),
            8 => Some(PacketKind::UserRemove),
            9 => Some(PacketKind::UserState),
            10 => Some(PacketKind::BanList),
            11 => Some(PacketKind::TextMessage),
            12 => Some(PacketKind::PermissionDenied),
            13 => Some(PacketKind::ACL),
            14 => Some(PacketKind::QueryUsers),
            15 => Some(PacketKind::CryptSetup),
            16 => Some(PacketKind::ContextActionModify),
            17 => Some(PacketKind::ContextAction),
            18 => Some(PacketKind::UserList),
            19 => Some(PacketKind::VoiceTarget),
            20 => Some(PacketKind::PermissionQuery),
            21 => Some(PacketKind::CodecVersion),
            22 => Some(PacketKind::UserStats),
            23 => Some(PacketKind::RequestBlob),
            24 => Some(PacketKind::ServerConfig),
            25 => Some(PacketKind::SuggestConfig),
            26 => Some(PacketKind::WebRTC),
            27 => Some(PacketKind::IceCandidate),
            28 => Some(PacketKind::TalkingState),
            _ => None,
        }
    }

    /// The name of this kind, for diagnostics.
    pub fn name(&self) -> (r: &'static str)
        ensures
            r@ == kind_name(*self),
    {
        match self {
            PacketKind::Version => "Version",
            PacketKind::UDPTunnel => "UDPTunnel",
            PacketKind::Authenticate => "Authenticate",
            PacketKind::Ping => "Ping",
            PacketKind::Reject => "Reject",
            PacketKind::ServerSync => "ServerSync",
            PacketKind::ChannelRemove => "ChannelRemove",
            PacketKind::ChannelState => "ChannelState",
            PacketKind::UserRemove => "UserRemove",
            PacketKind::UserState => "UserState",
            PacketKind::BanList => "BanList",
            PacketKind::TextMessage => "TextMessage",
            PacketKind::PermissionDenied => "PermissionDenied",
            PacketKind::ACL => "ACL",
            PacketKind::QueryUsers => "QueryUsers",
            PacketKind::CryptSetup => "CryptSetup",
            PacketKind::ContextActionModify => "ContextActionModify",
            PacketKind::ContextAction => "ContextAction",
            PacketKind::UserList => "UserList",
            PacketKind::VoiceTarget => "VoiceTarget",
            PacketKind::PermissionQuery => "PermissionQuery",
            PacketKind::CodecVersion => "CodecVersion",
            PacketKind::UserStats => "UserStats",
            PacketKind::RequestBlob => "RequestBlob",
            PacketKind::ServerConfig => "ServerConfig",
            PacketKind::SuggestConfig => "SuggestConfig",
            PacketKind::WebRTC => "WebRTC",
            PacketKind::IceCandidate => "IceCandidate",
            PacketKind::TalkingState => "TalkingState",
        }
    }
}

/// The name of `k`.
pub open spec fn kind_name(k: PacketKind) -> Seq<char> {
    match k {
        PacketKind::Version => "Version"@,
        PacketKind::UDPTunnel => "UDPTunnel"@,
        PacketKind::Authenticate => "Authenticate"@,
        PacketKind::Ping => "Ping"@,
        PacketKind::Reject => "Reject"@,
        PacketKind::ServerSync => "ServerSync"@,
        PacketKind::ChannelRemove => "ChannelRemove"@,
        PacketKind::ChannelState => "ChannelState"@,
        PacketKind::UserRemove => "UserRemove"@,
        PacketKind::UserState => "UserState"@,
        PacketKind::BanList => "BanList"@,
        PacketKind::TextMessage => "TextMessage"@,
        PacketKind::PermissionDenied => "PermissionDenied"@,
        PacketKind::ACL => "ACL"@,
        PacketKind::QueryUsers => "QueryUsers"@,
        PacketKind::CryptSetup => "CryptSetup"@,
        PacketKind::ContextActionModify => "ContextActionModify"@,
        PacketKind::ContextAction => "ContextAction"@,
        PacketKind::UserList => "UserList"@,
        PacketKind::VoiceTarget => "VoiceTarget"@,
        PacketKind::PermissionQuery => "PermissionQuery"@,
        PacketKind::CodecVersion => "CodecVersion"@,
        PacketKind::UserStats => "UserStats"@,
        PacketKind::RequestBlob => "RequestBlob"@,
        PacketKind::ServerConfig => "ServerConfig"@,
        PacketKind::SuggestConfig => "SuggestConfig"@,
        PacketKind::WebRTC => "WebRTC"@,
        PacketKind::IceCandidate => "IceCandidate"@,
        PacketKind::TalkingState => "TalkingState"@,
    }
}

/// Ids and kinds correspond one to one: each kind's id leads back to the kind, the known
/// ids are exactly `0..KIND_COUNT`, and the voice tunnel has id [UDP_TUNNEL].
pub proof fn lemma_registry_bijective(k: PacketKind, t: u16)
    ensures
        tag_kind(kind_tag(k)) == Some(k),
        kind_tag(k) < KIND_COUNT,
        tag_kind(t) is Some <==> t < KIND_COUNT,
        tag_kind(t) matches Some(j) ==> kind_tag(j) == t,
        kind_tag(PacketKind::UDPTunnel) == UDP_TUNNEL,
{
}

/// The kinds of control message that carry a schema-defined body: every kind but the
/// voice tunnel. Each has the packet id of its [PacketKind].
#[derive(Clone, Copy, Debug, PartialEq, Eq, Structural)]
pub enum MessageKind {
    Version,
    Authenticate,
    Ping,
    Reject,
    ServerSync,
    ChannelRemove,
    ChannelState,
    UserRemove,
    UserState,
    BanList,
    TextMessage,
    PermissionDenied,
    ACL,
    QueryUsers,
    CryptSetup,
    ContextActionModify,
    ContextAction,
    UserList,
    VoiceTarget,
    PermissionQuery,
    CodecVersion,
    UserStats,
    RequestBlob,
    ServerConfig,
    SuggestConfig,
    WebRTC,
    IceCandidate,
    TalkingState,
}

/// The packet id of the message kind `k`.
pub open spec fn message_tag(k: MessageKind) -> u16 {
    match k {
        MessageKind::Version => 0,
        MessageKind::Authenticate => 2,
        MessageKind::Ping => 3,
        MessageKind::Reject => 4,
        MessageKind::ServerSync => 5,
        MessageKind::ChannelRemove => 6,
        MessageKind::ChannelState => 7,
        MessageKind::UserRemove => 8,
        MessageKind::UserState => 9,
        MessageKind::BanList => 10,
        MessageKind::TextMessage => 11,
        MessageKind::PermissionDenied => 12,
        MessageKind::ACL => 13,
        MessageKind::QueryUsers => 14,
        MessageKind::CryptSetup => 15,
        MessageKind::ContextActionModify => 16,
        MessageKind::ContextAction => 17,
        MessageKind::UserList => 18,
        MessageKind::VoiceTarget => 19,
        MessageKind::PermissionQuery => 20,
        MessageKind::CodecVersion => 21,
        MessageKind::UserStats => 22,
        MessageKind::RequestBlob => 23,
        MessageKind::ServerConfig => 24,
        MessageKind::SuggestConfig => 25,
        MessageKind::WebRTC => 26,
        MessageKind::IceCandidate => 27,
        MessageKind::TalkingState => 28,
    }
}

/// The message kind that packet id `t` stands for, if any.
pub open spec fn tag_message(t: u16) -> Option<MessageKind> {
    match t {
        0 => Some(MessageKind::Version),
        2 => Some(MessageKind::Authenticate),
        3 => Some(MessageKind::Ping),
        4 => Some(MessageKind::Reject),
        5 => Some(MessageKind::ServerSync),
        6 => Some(MessageKind::ChannelRemove),
        7 => Some(MessageKind::ChannelState),
        8 => Some(MessageKind::UserRemove),
        9 => Some(MessageKind::UserState),
        10 => Some(MessageKind::BanList),
        11 => Some(MessageKind::TextMessage),
        12 => Some(MessageKind::PermissionDenied),
        13 => Some(MessageKind::ACL),
        14 => Some(MessageKind::QueryUsers),
        15 => Some(MessageKind::CryptSetup),
        16 => Some(MessageKind::ContextActionModify),
        17 => Some(MessageKind::ContextAction),
        18 => Some(MessageKind::UserList),
        19 => Some(MessageKind::VoiceTarget),
        20 => Some(MessageKind::PermissionQuery),
        21 => Some(MessageKind::CodecVersion),
        22 => Some(MessageKind::UserStats),
        23 => Some(MessageKind::RequestBlob),
        24 => Some(MessageKind::ServerConfig),
        25 => Some(MessageKind::SuggestConfig),
        26 => Some(MessageKind::WebRTC),
        27 => Some(MessageKind::IceCandidate),
        28 => Some(MessageKind::TalkingState),
        _ => None,
    }
}

/// The name of the message kind `k`.
pub open spec fn message_name(k: MessageKind) -> Seq<char> {
    match k {
        MessageKind::Version => "Version"@,
        MessageKind::Authenticate => "Authenticate"@,
        MessageKind::Ping => "Ping"@,
        MessageKind::Reject => "Reject"@,
        MessageKind::ServerSync => "ServerSync"@,
        MessageKind::ChannelRemove => "ChannelRemove"@,
        MessageKind::ChannelState => "ChannelState"@,
        MessageKind::UserRemove => "UserRemove"@,
        MessageKind::UserState => "UserState"@,
        MessageKind::BanList => "BanList"@,
        MessageKind::TextMessage => "TextMessage"@,
        MessageKind::PermissionDenied => "PermissionDenied"@,
        MessageKind::ACL => "ACL"@,
        MessageKind::QueryUsers => "QueryUsers"@,
        MessageKind::CryptSetup => "CryptSetup"@,
        MessageKind::ContextActionModify => "ContextActionModify"@,
        MessageKind::ContextAction => "ContextAction"@,
        MessageKind::UserList => "UserList"@,
        MessageKind::VoiceTarget => "VoiceTarget"@,
        MessageKind::PermissionQuery => "PermissionQuery"@,
        MessageKind::CodecVersion => "CodecVersion"@,
        MessageKind::UserStats => "UserStats"@,
        MessageKind::RequestBlob => "RequestBlob"@,
        MessageKind::ServerConfig => "ServerConfig"@,
        MessageKind::SuggestConfig => "SuggestConfig"@,
        MessageKind::WebRTC => "WebRTC"@,
        MessageKind::IceCandidate => "IceCandidate"@,
        MessageKind::TalkingState => "TalkingState"@,
    }
}

impl MessageKind {
    /// The packet id of this kind.
    pub fn tag(&self) -> (r: u16)
        ensures
            r == message_tag(*self),
    {
        match self {
            MessageKind::Version => 0,
            MessageKind::Authenticate => 2,
            MessageKind::Ping => 3,
            MessageKind::Reject => 4,
            MessageKind::ServerSync => 5,
            MessageKind::ChannelRemove => 6,
            MessageKind::ChannelState => 7,
            MessageKind::UserRemove => 8,
            MessageKind::UserState => 9,
            MessageKind::BanList => 10,
            MessageKind::TextMessage => 11,
            MessageKind::PermissionDenied => 12,
            MessageKind::ACL => 13,
            MessageKind::QueryUsers => 14,
            MessageKind::CryptSetup => 15,
            MessageKind::ContextActionModify => 16,
            MessageKind::ContextAction => 17,
            MessageKind::UserList => 18,
            MessageKind::VoiceTarget => 19,
            MessageKind::PermissionQuery => 20,
            MessageKind::CodecVersion => 21,
            MessageKind::UserStats => 22,
            MessageKind::RequestBlob => 23,
            MessageKind::ServerConfig => 24,
            MessageKind::SuggestConfig => 25,
            MessageKind::WebRTC => 26,
            MessageKind::IceCandidate => 27,
            MessageKind::TalkingState => 28,
        }
    }

    /// The message kind with packet id `t`, or `None` where the id is the voice tunnel's
    /// or no kind's.
    pub fn from_tag(t: u16) -> (r: Option<MessageKind>)
        ensures
            r == tag_message(t),
    {
        match t {
            0 => Some(MessageKind::Version),
            2 => Some(MessageKind::Authenticate),
            3 => Some(MessageKind::Ping),
            4 => Some(MessageKind::Reject),
            5 => Some(MessageKind::ServerSync),
            6 => Some(MessageKind::ChannelRemove),
            7 => Some(MessageKind::ChannelState),
            8 => Some(MessageKind::UserRemove),
            9 => Some(MessageKind::UserState),
            10 => Some(MessageKind::BanList),
            11 => Some(MessageKind::TextMessage),
            12 => Some(MessageKind::PermissionDenied),
            13 => Some(MessageKind::ACL),
            14 => Some(MessageKind::QueryUsers),
            15 => Some(MessageKind::CryptSetup),
            16 => Some(MessageKind::ContextActionModify),
            17 => Some(MessageKind::ContextAction),
            18 => Some(MessageKind::UserList),
            19 => Some(MessageKind::VoiceTarget),
            20 => Some(MessageKind::PermissionQuery),
            21 => Some(MessageKind::CodecVersion),
            22 => Some(MessageKind::UserStats),
            23 => Some(MessageKind::RequestBlob),
            24 => Some(MessageKind::ServerConfig),
            25 => Some(MessageKind::SuggestConfig),
            26 => Some(MessageKind::WebRTC),
            27 => Some(MessageKind::IceCandidate),
            28 => Some(MessageKind::TalkingState),
            _ => None,
        }
    }

    /// The name of this kind, for diagnostics.
    pub fn name(&self) -> (r: &'static str)
        ensures
            r@ == message_name(*self),
    {
        match self {
            MessageKind::Version => "Version",
            MessageKind::Authenticate => "Authenticate",
            MessageKind::Ping => "Ping",
            MessageKind::Reject => "Reject",
            MessageKind::ServerSync => "ServerSync",
            MessageKind::ChannelRemove => "ChannelRemove",
            MessageKind::ChannelState => "ChannelState",
            MessageKind::UserRemove => "UserRemove",
            MessageKind::UserState => "UserState",
            MessageKind::BanList => "BanList",
            MessageKind::TextMessage => "TextMessage",
            MessageKind::PermissionDenied => "PermissionDenied",
            MessageKind::ACL => "ACL",
            MessageKind::QueryUsers => "QueryUsers",
            MessageKind::CryptSetup => "CryptSetup",
            MessageKind::ContextActionModify => "ContextActionModify",
            MessageKind::ContextAction => "ContextAction",
            MessageKind::UserList => "UserList",
            MessageKind::VoiceTarget => "VoiceTarget",
            MessageKind::PermissionQuery => "PermissionQuery",
            MessageKind::CodecVersion => "CodecVersion",
            MessageKind::UserStats => "UserStats",
            MessageKind::RequestBlob => "RequestBlob",
            MessageKind::ServerConfig => "ServerConfig",
            MessageKind::SuggestConfig => "SuggestConfig",
            MessageKind::WebRTC => "WebRTC",
            MessageKind::IceCandidate => "IceCandidate",
            MessageKind::TalkingState => "TalkingState",
        }
    }
}

/// Message kinds and their ids correspond one to one, and are exactly the known kinds
/// other than the voice tunnel.
pub proof fn lemma_message_kinds(k: MessageKind, t: u16)
    ensures
        tag_message(message_tag(k)) == Some(k),
        message_tag(k) != UDP_TUNNEL,
        tag_message(t) matches Some(j) ==> message_tag(j) == t,
        tag_message(t) is Some <==> (t != UDP_TUNNEL && tag_kind(t) is Some),
{
}

} // verus!
