use atri_bot::client::{check_token_owner, login_outcome, token_source, work_dir, Token, TokenSource};
use atri_bot::dispatch::{
    group_leave_action, group_message_group_found, group_message_member, group_message_start,
    new_member_needs_refresh, same_conversation, DropReason, GroupMessageStep, LeaveAction,
    MemberLookup, SenderKind, ANONYMOUS_MEMBER_ID,
};
use atri_bot::error::{LoginError, PluginError};
use atri_bot::kick::ToKickMember;
use atri_bot::plugin::{plugin_function, PluginFunction};

fn token(uin: i64) -> Token {
    Token {
        uin,
        d2: vec![],
        d2key: vec![],
        tgt: vec![],
        srm_token: vec![],
        t133: vec![],
        encrypted_a1: vec![],
        out_packet_session_id: vec![],
        tgtgt_key: vec![],
        wt_session_ticket_key: vec![],
    }
}

#[test]
fn client_work_dir() {
    assert_eq!(work_dir(None, 123456), "clients/123456");
    assert_eq!(work_dir(None, -1), "clients/-1");
    assert_eq!(work_dir(Some("bots/x"), 1), "bots/x");
}

#[test]
fn login_decisions() {
    assert_eq!(token_source(true, true), Ok(TokenSource::Binary));
    assert_eq!(token_source(false, true), Ok(TokenSource::Json));
    assert_eq!(token_source(false, false), Err(LoginError::TokenNotExist));
    assert_eq!(check_token_owner(&token(5), 5), Ok(()));
    assert_eq!(check_token_owner(&token(5), 6), Err(LoginError::WrongToken));
    assert_eq!(login_outcome(true), Ok(()));
    assert_eq!(login_outcome(false), Err(LoginError::TokenLoginFailed));
}

#[test]
fn error_messages() {
    assert_eq!(LoginError::TokenNotExist.message(), "token not exist");
    assert_eq!(LoginError::WrongToken.message(), "wrong token");
    assert_eq!(LoginError::TokenLoginFailed.message(), "token login failed. maybe the token is expired");
    assert_eq!(PluginError::InitializeFail("boom").message(), "plugin initialize failed: boom");
    assert_eq!(PluginError::LoadFail("no lib".to_string()).message(), "plugin load failed, cause: no lib");
    assert_eq!(PluginError::NameConflict.message(), "plugin name conflicted");
}

#[test]
fn kick_targets() {
    assert_eq!(7i64.to_member_vec(), vec![7]);
    assert_eq!(vec![1i64, 2].to_member_vec(), vec![1, 2]);
    assert_eq!([3i64, 4, 5].to_member_vec(), vec![3, 4, 5]);
    assert_eq!((&[6i64]).to_member_vec(), vec![6]);
}

#[test]
fn plugin_signatures() {
    assert_eq!(plugin_function(0), Some(PluginFunction::PluginManagerSpawn));
    assert_eq!(plugin_function(406), Some(PluginFunction::GroupSendMessage));
    assert_eq!(plugin_function(405), None);
    assert_eq!(plugin_function(2001), None);
    assert_eq!(plugin_function(10002), Some(PluginFunction::GroupMessageEventGetSender));
    assert_eq!(plugin_function(30502), Some(PluginFunction::RustStringDrop));
    assert_eq!(plugin_function(u16::MAX), None);
}

#[test]
fn group_message_decisions() {
    assert_eq!(group_message_start(1, 1, 9), GroupMessageStep::Drop(DropReason::OwnMessage));
    assert_eq!(group_message_start(1, 2, 9), GroupMessageStep::FindGroup(9));
    assert_eq!(group_message_group_found(false, 2, false), GroupMessageStep::Drop(DropReason::GroupNotFound));
    assert_eq!(
        group_message_group_found(true, ANONYMOUS_MEMBER_ID, true),
        GroupMessageStep::Emit(SenderKind::Anonymous)
    );
    assert_eq!(
        group_message_group_found(true, ANONYMOUS_MEMBER_ID, false),
        GroupMessageStep::Drop(DropReason::NoAnonymousInfo)
    );
    assert_eq!(group_message_group_found(true, 2, false), GroupMessageStep::RefreshMember(2));
    assert_eq!(group_message_member(MemberLookup::Found), GroupMessageStep::Emit(SenderKind::Named));
    assert_eq!(group_message_member(MemberLookup::Missing), GroupMessageStep::Drop(DropReason::MemberNotInGroup));
    assert_eq!(group_message_member(MemberLookup::Failed), GroupMessageStep::Drop(DropReason::MemberLookupFailed));
    assert_eq!(ANONYMOUS_MEMBER_ID, 80000000);
}

#[test]
fn cache_decisions() {
    assert_eq!(group_leave_action(1, 9, 1, true), LeaveAction::RemoveGroup(9));
    assert_eq!(group_leave_action(1, 9, 1, false), LeaveAction::RemoveGroup(9));
    assert_eq!(group_leave_action(1, 9, 2, true), LeaveAction::RemoveMember { group: 9, member: 2 });
    assert_eq!(group_leave_action(1, 9, 2, false), LeaveAction::Ignore);
    assert!(new_member_needs_refresh(1, 2));
    assert!(!new_member_needs_refresh(1, 1));
    assert!(same_conversation(1, 2, 1, 2));
    assert!(!same_conversation(1, 2, 1, 3));
    assert!(!same_conversation(1, 2, 4, 2));
}
