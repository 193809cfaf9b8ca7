use atri_bot::client::{device_after_backup, device_step, DeviceStep};
use atri_bot::contact::{friend_deletion, member_listing, members_source, FriendDeletion, MembersSource};
use atri_bot::dispatch::{event_outcome, group_poke_member_ids, CacheChange, Outcome, ProtocolEvent};
use atri_bot::event::listener::{next_event_step, WaitStep};
use atri_bot::fun::moli::{moli_after_answer, MoliAfterAnswer};

fn outcome(change: CacheChange, emit: bool) -> Outcome {
    Outcome { change, emit }
}

#[test]
fn unregistered_client_events_go_nowhere() {
    assert_eq!(event_outcome(1, false, ProtocolEvent::Login), outcome(CacheChange::Nothing, false));
    assert_eq!(
        event_outcome(1, false, ProtocolEvent::NewFriend { friend: 5 }),
        outcome(CacheChange::Nothing, false)
    );
    assert_eq!(event_outcome(1, false, ProtocolEvent::Other), outcome(CacheChange::Nothing, true));
}

#[test]
fn friend_events() {
    assert_eq!(event_outcome(1, true, ProtocolEvent::Login), outcome(CacheChange::Nothing, true));
    assert_eq!(
        event_outcome(1, true, ProtocolEvent::FriendMessage { friend_found: false }),
        outcome(CacheChange::Nothing, false)
    );
    assert_eq!(
        event_outcome(1, true, ProtocolEvent::NewFriend { friend: 5 }),
        outcome(CacheChange::AddFriend(5), true)
    );
    assert_eq!(
        event_outcome(1, true, ProtocolEvent::DeleteFriend { friend: 5, was_cached: true }),
        outcome(CacheChange::RemoveFriend(5), true)
    );
    assert_eq!(
        event_outcome(1, true, ProtocolEvent::DeleteFriend { friend: 5, was_cached: false }),
        outcome(CacheChange::Nothing, false)
    );
    assert_eq!(
        event_outcome(1, true, ProtocolEvent::FriendPoke { friend_found: true }),
        outcome(CacheChange::Nothing, true)
    );
}

#[test]
fn group_events() {
    assert_eq!(group_poke_member_ids(7, 8), (7, 7));
    assert_eq!(
        event_outcome(
            1,
            true,
            ProtocolEvent::GroupPoke { group_found: true, sender_found: true, target_found: false }
        ),
        outcome(CacheChange::Nothing, false)
    );
    assert_eq!(
        event_outcome(1, true, ProtocolEvent::GroupDisband { group: 9 }),
        outcome(CacheChange::RemoveGroup(9), true)
    );
    assert_eq!(
        event_outcome(1, true, ProtocolEvent::NewMember { group: 9, member: 2, group_found: true }),
        outcome(CacheChange::RefreshMember { group: 9, member: 2 }, true)
    );
    assert_eq!(
        event_outcome(1, true, ProtocolEvent::NewMember { group: 9, member: 1, group_found: true }),
        outcome(CacheChange::Nothing, true)
    );
    assert_eq!(
        event_outcome(1, true, ProtocolEvent::NewMember { group: 9, member: 2, group_found: false }),
        outcome(CacheChange::Nothing, false)
    );
    assert_eq!(
        event_outcome(1, true, ProtocolEvent::GroupLeave { group: 9, member: 1, group_cached: false }),
        outcome(CacheChange::RemoveGroup(9), true)
    );
    assert_eq!(
        event_outcome(1, true, ProtocolEvent::GroupLeave { group: 9, member: 2, group_cached: true }),
        outcome(CacheChange::RemoveMember { group: 9, member: 2 }, true)
    );
    assert_eq!(
        event_outcome(1, true, ProtocolEvent::GroupLeave { group: 9, member: 2, group_cached: false }),
        outcome(CacheChange::Nothing, false)
    );
}

#[test]
fn offline_and_other_events() {
    assert_eq!(event_outcome(3, true, ProtocolEvent::KickedOffline), outcome(CacheChange::RemoveClient(3), true));
    assert_eq!(event_outcome(3, true, ProtocolEvent::MsfOffline), outcome(CacheChange::RemoveClient(3), true));
    assert_eq!(event_outcome(3, true, ProtocolEvent::Other), outcome(CacheChange::Nothing, true));
}

#[test]
fn contact_decisions() {
    assert_eq!(members_source(true), MembersSource::Cache);
    assert_eq!(members_source(false), MembersSource::Fetch);
    assert_eq!(friend_deletion(false, true), FriendDeletion { remove_from_cache: false, deleted: false });
    assert_eq!(friend_deletion(true, true), FriendDeletion { remove_from_cache: true, deleted: true });
    assert_eq!(friend_deletion(true, false), FriendDeletion { remove_from_cache: true, deleted: false });
}

#[test]
fn waiting_and_chat_rounds() {
    assert_eq!(next_event_step(true), WaitStep::Take);
    assert_eq!(next_event_step(false), WaitStep::Skip);
    assert_eq!(moli_after_answer(1, 0), MoliAfterAnswer::Stop);
    assert_eq!(moli_after_answer(1, 2), MoliAfterAnswer::WaitForNext);
    assert_eq!(moli_after_answer(2, 2), MoliAfterAnswer::WaitForNext);
    assert_eq!(moli_after_answer(3, 2), MoliAfterAnswer::Stop);
}

#[test]
fn member_listing_paths() {
    let cached = [Some(4), None, Some(2)];
    let r = member_listing(true, &cached, None);
    assert_eq!(r.members, vec![4, 2]);
    assert!(r.to_cache.is_empty());
    assert!(r.refreshed);

    let fetched = [7, 8, 9];
    let r = member_listing(false, &cached, Some(&fetched));
    assert_eq!(r.members, vec![7, 8, 9]);
    assert_eq!(r.to_cache, vec![7, 8, 9]);
    assert!(r.refreshed);

    let r = member_listing(false, &cached, None);
    assert!(r.members.is_empty());
    assert!(r.to_cache.is_empty());
    assert!(!r.refreshed);
}

#[test]
fn device_file_steps() {
    assert_eq!(device_step(false, false, false), DeviceStep::Random { write: true });
    assert_eq!(device_step(true, false, false), DeviceStep::Random { write: false });
    assert_eq!(device_step(true, true, true), DeviceStep::UseStored);
    assert_eq!(device_step(true, true, false), DeviceStep::BackUp);
    assert_eq!(device_after_backup(true), DeviceStep::Random { write: true });
    assert_eq!(device_after_backup(false), DeviceStep::Random { write: false });
}
