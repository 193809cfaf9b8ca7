//! The table by which a plugin finds the bot's functions: each function
//! has a fixed signature number.

use vstd::prelude::*;

verus! {

/// A function that the bot offers to plugins.
#[derive(Clone, Copy, PartialEq, Eq, Structural, Debug)]
pub enum PluginFunction {
    PluginManagerSpawn,
    PluginManagerBlockOn,
    NewListener,
    ListenerNextEventWithPriority,
    NewListenerCFunc,
    NewListenerClosure,
    ListenerNextEventWithPriorityBlocking,
    EventIntercept,
    EventIsIntercepted,
    ClientGetId,
    ClientGetNickname,
    ClientGetList,
    FindClient,
    ClientFindGroup,
    ClientFindFriend,
    ClientGetGroups,
    ClientGetFriends,
    ClientClone,
    ClientDrop,
    GroupGetId,
    GroupGetName,
    GroupGetClient,
    GroupGetMembers,
    GroupFindMember,
    GroupSendMessage,
    GroupUploadImage,
    GroupQuit,
    GroupChangeName,
    GroupSendForwardMessage,
    GroupInvite,
    GroupClone,
    GroupDrop,
    GroupSendMessageBlocking,
    GroupUploadImageBlocking,
    GroupQuitBlocking,
    GroupChangeNameBlocking,
    GroupSendForwardMessageBlocking,
    GroupInviteBlocking,
    GroupUploadImageEx,
    FriendGetId,
    FriendGetNickname,
    FriendGetClient,
    FriendSendMessage,
    FriendUploadImage,
    FriendClone,
    FriendDrop,
    FriendSendMessageBlocking,
    FriendUploadImageBlocking,
    FriendUploadImageEx,
    NamedMemberGetId,
    NamedMemberGetNickname,
    NamedMemberGetCardName,
    NamedMemberGetGroup,
    NamedMemberChangeCardName,
    NamedMemberChangeCardNameBlocking,
    GroupMessageEventGetGroup,
    GroupMessageEventGetMessage,
    GroupMessageEventGetSender,
    FriendMessageEventGetFriend,
    FriendMessageEventGetMessage,
    ImageGetId,
    ImageGetUrl,
    Log,
    EnvGetWorkspace,
    MessageChainToJson,
    MessageChainFromJson,
    RustStrCvt,
    CStrCvt,
    RustStringDrop,
}

/// The signature number under which a plugin asks for a function.
pub open spec fn plugin_signature(f: PluginFunction) -> u16 {
    match f {
        PluginFunction::PluginManagerSpawn => 0,
        PluginFunction::PluginManagerBlockOn => 1,
        PluginFunction::NewListener => 100,
        PluginFunction::ListenerNextEventWithPriority => 101,
        PluginFunction::NewListenerCFunc => 150,
        PluginFunction::NewListenerClosure => 151,
        PluginFunction::ListenerNextEventWithPriorityBlocking => 152,
        PluginFunction::EventIntercept => 200,
        PluginFunction::EventIsIntercepted => 201,
        PluginFunction::ClientGetId => 300,
        PluginFunction::ClientGetNickname => 301,
        PluginFunction::ClientGetList => 302,
        PluginFunction::FindClient => 303,
        PluginFunction::ClientFindGroup => 304,
        PluginFunction::ClientFindFriend => 305,
        PluginFunction::ClientGetGroups => 306,
        PluginFunction::ClientGetFriends => 307,
        PluginFunction::ClientClone => 320,
        PluginFunction::ClientDrop => 321,
        PluginFunction::GroupGetId => 400,
        PluginFunction::GroupGetName => 401,
        PluginFunction::GroupGetClient => 402,
        PluginFunction::GroupGetMembers => 403,
        PluginFunction::GroupFindMember => 404,
        PluginFunction::GroupSendMessage => 406,
        PluginFunction::GroupUploadImage => 407,
        PluginFunction::GroupQuit => 408,
        PluginFunction::GroupChangeName => 409,
        PluginFunction::GroupSendForwardMessage => 410,
        PluginFunction::GroupInvite => 411,
        PluginFunction::GroupClone => 420,
        PluginFunction::GroupDrop => 421,
        PluginFunction::GroupSendMessageBlocking => 456,
        PluginFunction::GroupUploadImageBlocking => 457,
        PluginFunction::GroupQuitBlocking => 458,
        PluginFunction::GroupChangeNameBlocking => 459,
        PluginFunction::GroupSendForwardMessageBlocking => 460,
        PluginFunction::GroupInviteBlocking => 461,
        PluginFunction::GroupUploadImageEx => 480,
        PluginFunction::FriendGetId => 500,
        PluginFunction::FriendGetNickname => 501,
        PluginFunction::FriendGetClient => 502,
        PluginFunction::FriendSendMessage => 503,
        PluginFunction::FriendUploadImage => 504,
        PluginFunction::FriendClone => 520,
        PluginFunction::FriendDrop => 521,
        PluginFunction::FriendSendMessageBlocking => 553,
        PluginFunction::FriendUploadImageBlocking => 554,
        PluginFunction::FriendUploadImageEx => 580,
        PluginFunction::NamedMemberGetId => 600,
        PluginFunction::NamedMemberGetNickname => 601,
        PluginFunction::NamedMemberGetCardName => 602,
        PluginFunction::NamedMemberGetGroup => 603,
        PluginFunction::NamedMemberChangeCardName => 604,
        PluginFunction::NamedMemberChangeCardNameBlocking => 654,
        PluginFunction::GroupMessageEventGetGroup => 10000,
        PluginFunction::GroupMessageEventGetMessage => 10001,
        PluginFunction::GroupMessageEventGetSender => 10002,
        PluginFunction::FriendMessageEventGetFriend => 10100,
        PluginFunction::FriendMessageEventGetMessage => 10101,
        PluginFunction::ImageGetId => 2000,
        PluginFunction::ImageGetUrl => 2002,
        PluginFunction::Log => 20000,
        PluginFunction::EnvGetWorkspace => 30000,
        PluginFunction::MessageChainToJson => 30100,
        PluginFunction::MessageChainFromJson => 30101,
        PluginFunction::RustStrCvt => 30500,
        PluginFunction::CStrCvt => 30501,
        PluginFunction::RustStringDrop => 30502,
    }
}

/// The function that a plugin asks for by signature number; `None` for a
/// number that names no function, which a plugin must not call.
pub fn plugin_function(sig: u16) -> (r: Option<PluginFunction>)
    ensures
        forall|f: PluginFunction| #[trigger] plugin_signature(f) == sig <==> r == Some(f),
{
    match sig {
        0 => Some(PluginFunction::PluginManagerSpawn),
        1 => Some(PluginFunction::PluginManagerBlockOn),
        100 => Some(PluginFunction::NewListener),
        101 => Some(PluginFunction::ListenerNextEventWithPriority),
        150 => Some(PluginFunction::NewListenerCFunc),
        151 => Some(PluginFunction::NewListenerClosure),
        152 => Some(PluginFunction::ListenerNextEventWithPriorityBlocking),
        200 => Some(PluginFunction::EventIntercept),
        201 => Some(PluginFunction::EventIsIntercepted),
        300 => Some(PluginFunction::ClientGetId),
        301 => Some(PluginFunction::ClientGetNickname),
        302 => Some(PluginFunction::ClientGetList),
        303 => Some(PluginFunction::FindClient),
        304 => Some(PluginFunction::ClientFindGroup),
        305 => Some(PluginFunction::ClientFindFriend),
        306 => Some(PluginFunction::ClientGetGroups),
        307 => Some(PluginFunction::ClientGetFriends),
        320 => Some(PluginFunction::ClientClone),
        321 => Some(PluginFunction::ClientDrop),
        400 => Some(PluginFunction::GroupGetId),
        401 => Some(PluginFunction::GroupGetName),
        402 => Some(PluginFunction::GroupGetClient),
        403 => Some(PluginFunction::GroupGetMembers),
        404 => Some(PluginFunction::GroupFindMember),
        406 => Some(PluginFunction::GroupSendMessage),
        407 => Some(PluginFunction::GroupUploadImage),
        408 => Some(PluginFunction::GroupQuit),
        409 => Some(PluginFunction::GroupChangeName),
        410 => Some(PluginFunction::GroupSendForwardMessage),
        411 => Some(PluginFunction::GroupInvite),
        420 => Some(PluginFunction::GroupClone),
        421 => Some(PluginFunction::GroupDrop),
        456 => Some(PluginFunction::GroupSendMessageBlocking),
        457 => Some(PluginFunction::GroupUploadImageBlocking),
        458 => Some(PluginFunction::GroupQuitBlocking),
        459 => Some(PluginFunction::GroupChangeNameBlocking),
        460 => Some(PluginFunction::GroupSendForwardMessageBlocking),
        461 => Some(PluginFunction::GroupInviteBlocking),
        480 => Some(PluginFunction::GroupUploadImageEx),
        500 => Some(PluginFunction::FriendGetId),
        501 => Some(PluginFunction::FriendGetNickname),
        502 => Some(PluginFunction::FriendGetClient),
        503 => Some(PluginFunction::FriendSendMessage),
        504 => Some(PluginFunction::FriendUploadImage),
        520 => Some(PluginFunction::FriendClone),
        521 => Some(PluginFunction::FriendDrop),
        553 => Some(PluginFunction::FriendSendMessageBlocking),
        554 => Some(PluginFunction::FriendUploadImageBlocking),
        580 => Some(PluginFunction::FriendUploadImageEx),
        600 => Some(PluginFunction::NamedMemberGetId),
        601 => Some(PluginFunction::NamedMemberGetNickname),
        602 => Some(PluginFunction::NamedMemberGetCardName),
        603 => Some(PluginFunction::NamedMemberGetGroup),
        604 => Some(PluginFunction::NamedMemberChangeCardName),
        654 => Some(PluginFunction::NamedMemberChangeCardNameBlocking),
        10000 => Some(PluginFunction::GroupMessageEventGetGroup),
        10001 => Some(PluginFunction::GroupMessageEventGetMessage),
        10002 => Some(PluginFunction::GroupMessageEventGetSender),
        10100 => Some(PluginFunction::FriendMessageEventGetFriend),
        10101 => Some(PluginFunction::FriendMessageEventGetMessage),
        2000 => Some(PluginFunction::ImageGetId),
        2002 => Some(PluginFunction::ImageGetUrl),
        20000 => Some(PluginFunction::Log),
        30000 => Some(PluginFunction::EnvGetWorkspace),
        30100 => Some(PluginFunction::MessageChainToJson),
        30101 => Some(PluginFunction::MessageChainFromJson),
        30500 => Some(PluginFunction::RustStrCvt),
        30501 => Some(PluginFunction::CStrCvt),
        30502 => Some(PluginFunction::RustStringDrop),
        _ => None,
    }
}

/// The fixed numbering that plugins are built against: each function of the
/// bot under its signature number. A plugin compiled against this table
/// reaches, by each number, exactly the function listed beside it.
pub proof fn lemma_plugin_abi_table()
    ensures
        plugin_signature(PluginFunction::PluginManagerSpawn) == 0,
        plugin_signature(PluginFunction::PluginManagerBlockOn) == 1,
        plugin_signature(PluginFunction::NewListener) == 100,
        plugin_signature(PluginFunction::ListenerNextEventWithPriority) == 101,
        plugin_signature(PluginFunction::NewListenerCFunc) == 150,
        plugin_signature(PluginFunction::NewListenerClosure) == 151,
        plugin_signature(PluginFunction::ListenerNextEventWithPriorityBlocking) == 152,
        plugin_signature(PluginFunction::EventIntercept) == 200,
        plugin_signature(PluginFunction::EventIsIntercepted) == 201,
        plugin_signature(PluginFunction::ClientGetId) == 300,
        plugin_signature(PluginFunction::ClientGetNickname) == 301,
        plugin_signature(PluginFunction::ClientGetList) == 302,
        plugin_signature(PluginFunction::FindClient) == 303,
        plugin_signature(PluginFunction::ClientFindGroup) == 304,
        plugin_signature(PluginFunction::ClientFindFriend) == 305,
        plugin_signature(PluginFunction::ClientGetGroups) == 306,
        plugin_signature(PluginFunction::ClientGetFriends) == 307,
        plugin_signature(PluginFunction::ClientClone) == 320,
        plugin_signature(PluginFunction::ClientDrop) == 321,
        plugin_signature(PluginFunction::GroupGetId) == 400,
        plugin_signature(PluginFunction::GroupGetName) == 401,
        plugin_signature(PluginFunction::GroupGetClient) == 402,
        plugin_signature(PluginFunction::GroupGetMembers) == 403,
        plugin_signature(PluginFunction::GroupFindMember) == 404,
        plugin_signature(PluginFunction::GroupSendMessage) == 406,
        plugin_signature(PluginFunction::GroupUploadImage) == 407,
        plugin_signature(PluginFunction::GroupQuit) == 408,
        plugin_signature(PluginFunction::GroupChangeName) == 409,
        plugin_signature(PluginFunction::GroupSendForwardMessage) == 410,
        plugin_signature(PluginFunction::GroupInvite) == 411,
        plugin_signature(PluginFunction::GroupClone) == 420,
        plugin_signature(PluginFunction::GroupDrop) == 421,
        plugin_signature(PluginFunction::GroupSendMessageBlocking) == 456,
        plugin_signature(PluginFunction::GroupUploadImageBlocking) == 457,
        plugin_signature(PluginFunction::GroupQuitBlocking) == 458,
        plugin_signature(PluginFunction::GroupChangeNameBlocking) == 459,
        plugin_signature(PluginFunction::GroupSendForwardMessageBlocking) == 460,
        plugin_signature(PluginFunction::GroupInviteBlocking) == 461,
        plugin_signature(PluginFunction::GroupUploadImageEx) == 480,
        plugin_signature(PluginFunction::FriendGetId) == 500,
        plugin_signature(PluginFunction::FriendGetNickname) == 501,
        plugin_signature(PluginFunction::FriendGetClient) == 502,
        plugin_signature(PluginFunction::FriendSendMessage) == 503,
        plugin_signature(PluginFunction::FriendUploadImage) == 504,
        plugin_signature(PluginFunction::FriendClone) == 520,
        plugin_signature(PluginFunction::FriendDrop) == 521,
        plugin_signature(PluginFunction::FriendSendMessageBlocking) == 553,
        plugin_signature(PluginFunction::FriendUploadImageBlocking) == 554,
        plugin_signature(PluginFunction::FriendUploadImageEx) == 580,
        plugin_signature(PluginFunction::NamedMemberGetId) == 600,
        plugin_signature(PluginFunction::NamedMemberGetNickname) == 601,
        plugin_signature(PluginFunction::NamedMemberGetCardName) == 602,
        plugin_signature(PluginFunction::NamedMemberGetGroup) == 603,
        plugin_signature(PluginFunction::NamedMemberChangeCardName) == 604,
        plugin_signature(PluginFunction::NamedMemberChangeCardNameBlocking) == 654,
        plugin_signature(PluginFunction::GroupMessageEventGetGroup) == 10000,
        plugin_signature(PluginFunction::GroupMessageEventGetMessage) == 10001,
        plugin_signature(PluginFunction::GroupMessageEventGetSender) == 10002,
        plugin_signature(PluginFunction::FriendMessageEventGetFriend) == 10100,
        plugin_signature(PluginFunction::FriendMessageEventGetMessage) == 10101,
        plugin_signature(PluginFunction::ImageGetId) == 2000,
        plugin_signature(PluginFunction::ImageGetUrl) == 2002,
        plugin_signature(PluginFunction::Log) == 20000,
        plugin_signature(PluginFunction::EnvGetWorkspace) == 30000,
        plugin_signature(PluginFunction::MessageChainToJson) == 30100,
        plugin_signature(PluginFunction::MessageChainFromJson) == 30101,
        plugin_signature(PluginFunction::RustStrCvt) == 30500,
        plugin_signature(PluginFunction::CStrCvt) == 30501,
        plugin_signature(PluginFunction::RustStringDrop) == 30502,
{
}

/// No two functions share a signature number, so asking for a function's
/// number gives that function back.
pub proof fn lemma_plugin_signature_injective(f: PluginFunction, g: PluginFunction)
    ensures
        plugin_signature(f) == plugin_signature(g) ==> f == g,
{
}

} // verus!
