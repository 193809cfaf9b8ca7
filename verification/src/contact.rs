//! The decisions that the contact operations take around their requests:
//! where a group's member list comes from, and what deleting a friend
//! changes.

use vstd::prelude::*;

verus! {

/// Where a group's member list comes from.
#[derive(Clone, Copy, PartialEq, Eq, Structural, Debug)]
pub enum MembersSource {
    /// The members cached since the list was last fetched.
    Cache,
    /// Fetch the list, cache each member, and mark the list as fetched.
    Fetch,
}

/// Where the member list of a group comes from: the cache once the whole
/// list has been fetched, a new fetch before that.
pub fn members_source(list_refreshed: bool) -> (r: MembersSource)
    ensures
        list_refreshed ==> r == MembersSource::Cache,
        !list_refreshed ==> r == MembersSource::Fetch,
{
    if list_refreshed {
        MembersSource::Cache
    } else {
        MembersSource::Fetch
    }
}

/// What deleting a friend does once the request is answered: whether the
/// friend is taken out of the cache, and what the call returns.
#[derive(Clone, Copy, PartialEq, Eq, Structural, Debug)]
pub struct FriendDeletion {
    pub remove_from_cache: bool,
    pub deleted: bool,
}

/// Deleting a friend: the cache is touched only when the request succeeded,
/// and the call reports success when the friend was then found in the
/// cache and removed.
pub fn friend_deletion(request_ok: bool, cached: bool) -> (r: FriendDeletion)
    ensures
        r.remove_from_cache == request_ok,
        r.deleted == (request_ok && cached),
{
    if !request_ok {
        return FriendDeletion { remove_from_cache: false, deleted: false };
    }
    FriendDeletion { remove_from_cache: true, deleted: cached }
}

/// The named members among a group's cache entries, in the order of the
/// entries; an entry without a named member is skipped.
pub open spec fn named_members(entries: Seq<Option<i64>>) -> Seq<i64>
    decreases entries.len(),
{
    if entries.len() == 0 {
        Seq::empty()
    } else {
        named_members(entries.drop_last()) + match entries.last() {
            Some(m) => seq![m],
            None => Seq::empty(),
        }
    }
}

/// What listing a group's members gives, members by their account ids.
pub struct MemberListing {
    /// The members listed.
    pub members: Vec<i64>,
    /// The members to put in the cache.
    pub to_cache: Vec<i64>,
    /// Whether the member list counts as fetched afterwards.
    pub refreshed: bool,
}

fn copy_ids(ids: &[i64]) -> (r: Vec<i64>)
    ensures
        r@ == ids@,
{
    let mut r: Vec<i64> = Vec::new();
    let mut i: usize = 0;
    while i < ids.len()
        invariant
            0 <= i <= ids@.len(),
            r@ == ids@.take(i as int),
        decreases ids.len() - i,
    {
        r.push(ids[i]);
        assert(r@ =~= ids@.take(i + 1));
        i = i + 1;
    }
    assert(ids@.take(ids@.len() as int) =~= ids@);
    r
}

/// Lists a group's members. Once the list has been fetched, the answer is
/// the named members in the cache entries `cached`, and nothing is fetched
/// or cached. Before that, `fetched` is what fetching the list gave
/// (`None` when the request failed): on success the answer is one member
/// per fetched entry, in order, each cached, and the list counts as
/// fetched; on failure the answer is empty and the list still counts as
/// not fetched, so the next listing fetches again.
pub fn member_listing(list_refreshed: bool, cached: &[Option<i64>], fetched: Option<&[i64]>) -> (r:
    MemberListing)
    ensures
        list_refreshed ==> {
            &&& r.members@ == named_members(cached@)
            &&& r.to_cache@.len() == 0
            &&& r.refreshed
        },
        !list_refreshed ==> match fetched {
            Some(f) => {
                &&& r.members@ == f@
                &&& r.to_cache@ == f@
                &&& r.refreshed
            },
            None => {
                &&& r.members@.len() == 0
                &&& r.to_cache@.len() == 0
                &&& !r.refreshed
            },
        },
{
    if list_refreshed {
        let mut members: Vec<i64> = Vec::new();
        let mut i: usize = 0;
        while i < cached.len()
            invariant
                0 <= i <= cached@.len(),
                members@ == named_members(cached@.take(i as int)),
            decreases cached.len() - i,
        {
            proof {
                let t = cached@.take(i + 1);
                assert(t.drop_last() =~= cached@.take(i as int));
                assert(t.last() == cached@[i as int]);
            }
            match cached[i] {
                Some(m) => {
                    members.push(m);
                },
                None => {
                    assert(members@ =~= members@ + Seq::<i64>::empty());
                },
            }
            i = i + 1;
        }
        assert(cached@.take(cached@.len() as int) =~= cached@);
        return MemberListing { members, to_cache: Vec::new(), refreshed: true };
    }
    match fetched {
        Some(f) => {
            let members = copy_ids(f);
            let to_cache = copy_ids(f);
            MemberListing { members, to_cache, refreshed: true }
        },
        None => MemberListing { members: Vec::new(), to_cache: Vec::new(), refreshed: false },
    }
}

} // verus!
