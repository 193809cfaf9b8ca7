//! The decisions that the event handler takes between its lookups: whether
//! a protocol event becomes an event of the bot, and which caches change.

use vstd::prelude::*;

verus! {

/// The account number under which the protocol reports anonymous senders.
pub const ANONYMOUS_MEMBER_ID: i64 = 80000000;

/// Who sent a group message that becomes an event.
#[derive(Clone, Copy, PartialEq, Eq, Structural, Debug)]
pub enum SenderKind {
    Anonymous,
    Named,
}

/// Why a group message does not become an event.
#[derive(Clone, Copy, PartialEq, Eq, Structural, Debug)]
pub enum DropReason {
    /// The bot sent it itself; it is only logged.
    OwnMessage,
    /// The group could be neither found nor fetched.
    GroupNotFound,
    /// An anonymous message came without its anonymous identity.
    NoAnonymousInfo,
    /// The sender is no longer a member of the group.
    MemberNotInGroup,
    /// Fetching the sender's membership failed.
    MemberLookupFailed,
}

/// What the handler does next with a group message.
#[derive(Clone, Copy, PartialEq, Eq, Structural, Debug)]
pub enum GroupMessageStep {
    /// Find the group in the cache, or fetch it.
    FindGroup(i64),
    /// Fetch the sender's membership in the group.
    RefreshMember(i64),
    /// Hand the message to the listeners.
    Emit(SenderKind),
    /// Log it and go no further.
    Drop(DropReason),
}

/// What fetching a sender's membership gave.
#[derive(Clone, Copy, PartialEq, Eq, Structural, Debug)]
pub enum MemberLookup {
    Found,
    Missing,
    Failed,
}

/// The first step for a group message: a message the bot sent itself goes
/// no further; any other needs its group.
pub fn group_message_start(client_id: i64, from_uin: i64, group_id: i64) -> (r: GroupMessageStep)
    ensures
        from_uin == client_id ==> r == GroupMessageStep::Drop(DropReason::OwnMessage),
        from_uin != client_id ==> r == GroupMessageStep::FindGroup(group_id),
{
    if from_uin == client_id {
        GroupMessageStep::Drop(DropReason::OwnMessage)
    } else {
        GroupMessageStep::FindGroup(group_id)
    }
}

/// The step once the group lookup is done: without the group the message
/// goes no further; an anonymous message becomes an event when it carries
/// its identity; any other needs its sender's membership.
pub fn group_message_group_found(found: bool, from_uin: i64, has_anonymous_info: bool) -> (r:
    GroupMessageStep)
    ensures
        !found ==> r == GroupMessageStep::Drop(DropReason::GroupNotFound),
        found && from_uin == ANONYMOUS_MEMBER_ID && has_anonymous_info ==> r
            == GroupMessageStep::Emit(SenderKind::Anonymous),
        found && from_uin == ANONYMOUS_MEMBER_ID && !has_anonymous_info ==> r
            == GroupMessageStep::Drop(DropReason::NoAnonymousInfo),
        found && from_uin != ANONYMOUS_MEMBER_ID ==> r == GroupMessageStep::RefreshMember(
            from_uin,
        ),
{
    if !found {
        GroupMessageStep::Drop(DropReason::GroupNotFound)
    } else if from_uin == ANONYMOUS_MEMBER_ID {
        if has_anonymous_info {
            GroupMessageStep::Emit(SenderKind::Anonymous)
        } else {
            GroupMessageStep::Drop(DropReason::NoAnonymousInfo)
        }
    } else {
        GroupMessageStep::RefreshMember(from_uin)
    }
}

/// The step once the sender's membership is fetched: a member's message
/// becomes an event; otherwise it goes no further.
pub fn group_message_member(lookup: MemberLookup) -> (r: GroupMessageStep)
    ensures
        lookup == MemberLookup::Found ==> r == GroupMessageStep::Emit(SenderKind::Named),
        lookup == MemberLookup::Missing ==> r == GroupMessageStep::Drop(
            DropReason::MemberNotInGroup,
        ),
        lookup == MemberLookup::Failed ==> r == GroupMessageStep::Drop(
            DropReason::MemberLookupFailed,
        ),
{
    match lookup {
        MemberLookup::Found => GroupMessageStep::Emit(SenderKind::Named),
        MemberLookup::Missing => GroupMessageStep::Drop(DropReason::MemberNotInGroup),
        MemberLookup::Failed => GroupMessageStep::Drop(DropReason::MemberLookupFailed),
    }
}

/// What the handler changes when someone leaves a group.
#[derive(Clone, Copy, PartialEq, Eq, Structural, Debug)]
pub enum LeaveAction {
    /// The bot itself left: forget the group.
    RemoveGroup(i64),
    /// A member left a cached group: forget the member in that group.
    RemoveMember { group: i64, member: i64 },
    /// A member left a group that is not cached: nothing changes and no
    /// event goes out.
    Ignore,
}

/// What the handler does when `member` leaves group `group_id`, given
/// whether that group is cached. The first two answers are followed by the
/// event; the last one is not.
pub fn group_leave_action(client_id: i64, group_id: i64, member: i64, group_cached: bool) -> (r:
    LeaveAction)
    ensures
        member == client_id ==> r == LeaveAction::RemoveGroup(group_id),
        member != client_id && group_cached ==> r == (LeaveAction::RemoveMember {
            group: group_id,
            member,
        }),
        member != client_id && !group_cached ==> r == LeaveAction::Ignore,
{
    if member == client_id {
        LeaveAction::RemoveGroup(group_id)
    } else if group_cached {
        LeaveAction::RemoveMember { group: group_id, member }
    } else {
        LeaveAction::Ignore
    }
}

/// Whether the handler fetches a new member's membership: for anyone but
/// the bot itself.
pub fn new_member_needs_refresh(client_id: i64, member_id: i64) -> (r: bool)
    ensures
        r == (member_id != client_id),
{
    member_id != client_id
}

/// Whether a group message is the next message of a conversation: sent in
/// the same group by the same sender.
pub fn same_conversation(group_id: i64, sender_id: i64, event_group: i64, event_sender: i64) -> (r:
    bool)
    ensures
        r == (event_group == group_id && event_sender == sender_id),
{
    if event_group != group_id {
        return false;
    }
    if event_sender != sender_id {
        return false;
    }
    true
}

/// A protocol event other than a group message, with what the handler's
/// lookups for it found.
#[derive(Clone, Copy, PartialEq, Eq, Structural, Debug)]
pub enum ProtocolEvent {
    /// The bot's client logged in.
    Login,
    /// A friend's message; whether the friend was found, in the cache or
    /// by fetching the friend list.
    FriendMessage { friend_found: bool },
    /// Someone became a friend.
    NewFriend { friend: i64 },
    /// Someone stopped being a friend; whether the friend was cached.
    DeleteFriend { friend: i64, was_cached: bool },
    /// A friend poked the bot; whether the friend is cached.
    FriendPoke { friend_found: bool },
    /// A member poked another; whether the group was found, and whether the
    /// two member lookups (see [`group_poke_member_ids`]) found a member.
    GroupPoke { group_found: bool, sender_found: bool, target_found: bool },
    /// A group was disbanded.
    GroupDisband { group: i64 },
    /// Someone joined a group; whether the group was found.
    NewMember { group: i64, member: i64, group_found: bool },
    /// Someone left a group; whether the group is cached.
    GroupLeave { group: i64, member: i64, group_cached: bool },
    /// The bot was kicked off line.
    KickedOffline,
    /// The bot's connection dropped.
    MsfOffline,
    /// Any other event.
    Other,
}

/// The cache change that the handler makes for an event.
#[derive(Clone, Copy, PartialEq, Eq, Structural, Debug)]
pub enum CacheChange {
    Nothing,
    AddFriend(i64),
    RemoveFriend(i64),
    RemoveGroup(i64),
    RemoveMember { group: i64, member: i64 },
    /// Fetch the member's membership and cache it.
    RefreshMember { group: i64, member: i64 },
    /// Forget the bot's client: it is off line.
    RemoveClient(i64),
}

/// What the handler does with an event: the cache change, and whether the
/// event goes on, first to the listener worker and then to every
/// subscriber of the broadcast.
#[derive(Clone, Copy, PartialEq, Eq, Structural, Debug)]
pub struct Outcome {
    pub change: CacheChange,
    pub emit: bool,
}

/// The member ids that the handler looks up for a poke in a group: both
/// the poking and the poked member are looked up by the id of the member
/// who poked, which is what the handler does.
pub fn group_poke_member_ids(sender: i64, target: i64) -> (r: (i64, i64))
    ensures
        r == (sender, sender),
{
    (sender, sender)
}

/// What the handler does with an event of the client `client_id`, given
/// whether that client is registered: an event of a kind that the handler
/// does not look into goes on unchanged without any lookup; for any other
/// event of an unregistered client nothing happens; otherwise each kind of
/// event changes the caches as it says, and goes on unless a lookup it
/// needs came back empty.
pub fn event_outcome(client_id: i64, registered: bool, ev: ProtocolEvent) -> (r: Outcome)
    ensures
        !registered && !(ev is Other) ==> r == (Outcome { change: CacheChange::Nothing, emit: false }),
        ev is Other ==> r == (Outcome { change: CacheChange::Nothing, emit: true }),
        registered ==> r == match ev {
            ProtocolEvent::Login => Outcome { change: CacheChange::Nothing, emit: true },
            ProtocolEvent::FriendMessage { friend_found } => Outcome {
                change: CacheChange::Nothing,
                emit: friend_found,
            },
            ProtocolEvent::NewFriend { friend } => Outcome {
                change: CacheChange::AddFriend(friend),
                emit: true,
            },
            ProtocolEvent::DeleteFriend { friend, was_cached } => if was_cached {
                Outcome { change: CacheChange::RemoveFriend(friend), emit: true }
            } else {
                Outcome { change: CacheChange::Nothing, emit: false }
            },
            ProtocolEvent::FriendPoke { friend_found } => Outcome {
                change: CacheChange::Nothing,
                emit: friend_found,
            },
            ProtocolEvent::GroupPoke { group_found, sender_found, target_found } => Outcome {
                change: CacheChange::Nothing,
                emit: group_found && sender_found && target_found,
            },
            ProtocolEvent::GroupDisband { group } => Outcome {
                change: CacheChange::RemoveGroup(group),
                emit: true,
            },
            ProtocolEvent::NewMember { group, member, group_found } => if !group_found {
                Outcome { change: CacheChange::Nothing, emit: false }
            } else if member != client_id {
                Outcome { change: CacheChange::RefreshMember { group, member }, emit: true }
            } else {
                Outcome { change: CacheChange::Nothing, emit: true }
            },
            ProtocolEvent::GroupLeave { group, member, group_cached } => if member == client_id {
                Outcome { change: CacheChange::RemoveGroup(group), emit: true }
            } else if group_cached {
                Outcome { change: CacheChange::RemoveMember { group, member }, emit: true }
            } else {
                Outcome { change: CacheChange::Nothing, emit: false }
            },
            ProtocolEvent::KickedOffline => Outcome {
                change: CacheChange::RemoveClient(client_id),
                emit: true,
            },
            ProtocolEvent::MsfOffline => Outcome {
                change: CacheChange::RemoveClient(client_id),
                emit: true,
            },
            ProtocolEvent::Other => Outcome { change: CacheChange::Nothing, emit: true },
        },
{
    if let ProtocolEvent::Other = ev {
        return Outcome { change: CacheChange::Nothing, emit: true };
    }
    if !registered {
        return Outcome { change: CacheChange::Nothing, emit: false };
    }
    match ev {
        ProtocolEvent::Login => Outcome { change: CacheChange::Nothing, emit: true },
        ProtocolEvent::FriendMessage { friend_found } => Outcome {
            change: CacheChange::Nothing,
            emit: friend_found,
        },
        ProtocolEvent::NewFriend { friend } => Outcome {
            change: CacheChange::AddFriend(friend),
            emit: true,
        },
        ProtocolEvent::DeleteFriend { friend, was_cached } => {
            if was_cached {
                Outcome { change: CacheChange::RemoveFriend(friend), emit: true }
            } else {
                Outcome { change: CacheChange::Nothing, emit: false }
            }
        },
        ProtocolEvent::FriendPoke { friend_found } => Outcome {
            change: CacheChange::Nothing,
            emit: friend_found,
        },
        ProtocolEvent::GroupPoke { group_found, sender_found, target_found } => Outcome {
            change: CacheChange::Nothing,
            emit: group_found && sender_found && target_found,
        },
        ProtocolEvent::GroupDisband { group } => Outcome {
            change: CacheChange::RemoveGroup(group),
            emit: true,
        },
        ProtocolEvent::NewMember { group, member, group_found } => {
            if !group_found {
                Outcome { change: CacheChange::Nothing, emit: false }
            } else if new_member_needs_refresh(client_id, member) {
                Outcome { change: CacheChange::RefreshMember { group, member }, emit: true }
            } else {
                Outcome { change: CacheChange::Nothing, emit: true }
            }
        },
        ProtocolEvent::GroupLeave { group, member, group_cached } => {
            match group_leave_action(client_id, group, member, group_cached) {
                LeaveAction::RemoveGroup(g) => Outcome {
                    change: CacheChange::RemoveGroup(g),
                    emit: true,
                },
                LeaveAction::RemoveMember { group, member } => Outcome {
                    change: CacheChange::RemoveMember { group, member },
                    emit: true,
                },
                LeaveAction::Ignore => Outcome { change: CacheChange::Nothing, emit: false },
            }
        },
        ProtocolEvent::KickedOffline => Outcome {
            change: CacheChange::RemoveClient(client_id),
            emit: true,
        },
        ProtocolEvent::MsfOffline => Outcome {
            change: CacheChange::RemoveClient(client_id),
            emit: true,
        },
        ProtocolEvent::Other => Outcome { change: CacheChange::Nothing, emit: true },
    }
}

} // verus!
