use vstd::prelude::*;

use crate::followers::{find_follower, follow_spec, undo_spec, FollowResult, FollowState, FollowerStore, FollowerView};
use crate::likes::{like_spec, LikeStore};

verus! {

/// An inbound activity, already decoded from its JSON body.
pub enum Activity {
    Follow { actor: String, inbox: String },
    /// An Undo wrapping a Follow; `follow_actor` is the actor of that Follow.
    UndoFollow { actor: String, follow_actor: String },
    Like { actor: String, object: String },
    Create { actor: String },
    Unsupported,
}

/// Why an inbound activity was refused.
#[derive(Clone, Copy, PartialEq, Eq, Structural, Debug)]
pub enum InboxError {
    /// The Undo's Follow was not made by the request's signer.
    SignatureInvalid,
    UnsupportedActivity,
    /// The Like's object is no local content.
    ContentParseError,
}

/// What must be sent back after the activity was applied.
pub enum Reply {
    Nothing,
    /// A signed Accept(Follow) to this remote inbox.
    SendAccept { inbox: String },
}

/// Whether a Follow from `actor` is owed an Accept: its record ends Approved.
pub open spec fn accept_owed(recs: Seq<FollowerView>, actor: Seq<char>, manual: bool) -> bool {
    let i = find_follower(recs, actor);
    if i < 0 {
        !manual
    } else {
        recs[i].state == FollowState::Approved
    }
}

pub open spec fn views_of(v: Seq<String>) -> Seq<Seq<char>> {
    v.map_values(|s: String| s@)
}

fn contains_string(v: &Vec<String>, s: &String) -> (r: bool)
    ensures
        r == views_of(v@).contains(s@),
{
    let mut i: usize = 0;
    while i < v.len()
        invariant
            i <= v@.len(),
            forall|k: int| 0 <= k < i ==> v@[k]@ != s@,
        decreases v@.len() - i,
    {
        if v[i] == *s {
            assert(views_of(v@)[i as int] == s@);
            return true;
        }
        i = i + 1;
    }
    false
}

/// Applies one inbound activity, signed by `signer`, to the stores.
/// A Follow records the follower and owes an Accept when it ends Approved;
/// an Undo(Follow) removes the follower when the signer made that Follow;
/// a Like of local content is recorded once per actor; a Create changes
/// nothing; anything else is refused. A refused activity changes nothing.
pub fn handle_activity(
    followers: &mut FollowerStore,
    likes: &mut LikeStore,
    signer: &String,
    activity: &Activity,
    local_objects: &Vec<String>,
    manual: bool,
    now: u64,
) -> (r: Result<Reply, InboxError>)
    ensures
        match activity {
            Activity::Follow { actor, inbox } => {
                &&& final(followers)@ == follow_spec(old(followers)@, actor@, inbox@, now, manual)
                &&& final(likes)@ == old(likes)@
                &&& r is Ok
                &&& (r matches Ok(Reply::SendAccept { .. })) == accept_owed(
                    old(followers)@,
                    actor@,
                    manual,
                )
                &&& r matches Ok(Reply::SendAccept { inbox: i }) ==> i@ == inbox@
            },
            Activity::UndoFollow { actor, follow_actor } => {
                &&& final(likes)@ == old(likes)@
                &&& if follow_actor@ == signer@ {
                    &&& final(followers)@ == undo_spec(old(followers)@, follow_actor@)
                    &&& r matches Ok(Reply::Nothing)
                } else {
                    &&& final(followers)@ == old(followers)@
                    &&& r == Err::<Reply, InboxError>(InboxError::SignatureInvalid)
                }
            },
            Activity::Like { actor, object } => {
                &&& final(followers)@ == old(followers)@
                &&& if views_of(local_objects@).contains(object@) {
                    &&& final(likes)@ == like_spec(old(likes)@, object@, actor@, now)
                    &&& r matches Ok(Reply::Nothing)
                } else {
                    &&& final(likes)@ == old(likes)@
                    &&& r == Err::<Reply, InboxError>(InboxError::ContentParseError)
                }
            },
            Activity::Create { .. } => {
                &&& final(followers)@ == old(followers)@
                &&& final(likes)@ == old(likes)@
                &&& r matches Ok(Reply::Nothing)
            },
            Activity::Unsupported => {
                &&& final(followers)@ == old(followers)@
                &&& final(likes)@ == old(likes)@
                &&& r == Err::<Reply, InboxError>(InboxError::UnsupportedActivity)
            },
        },
{
    match activity {
        Activity::Follow { actor, inbox } => {
            let res = followers.apply_follow(actor, inbox, now, manual);
            match res {
                FollowResult::NewlyApproved | FollowResult::AlreadyApproved => Ok(
                    Reply::SendAccept { inbox: inbox.clone() },
                ),
                _ => Ok(Reply::Nothing),
            }
        },
        Activity::UndoFollow { actor, follow_actor } => {
            if *follow_actor == *signer {
                followers.apply_undo_follow(follow_actor);
                Ok(Reply::Nothing)
            } else {
                Err(InboxError::SignatureInvalid)
            }
        },
        Activity::Like { actor, object } => {
            if contains_string(local_objects, object) {
                likes.record_like(object, actor, now);
                Ok(Reply::Nothing)
            } else {
                Err(InboxError::ContentParseError)
            }
        },
        Activity::Create { .. } => Ok(Reply::Nothing),
        Activity::Unsupported => Err(InboxError::UnsupportedActivity),
    }
}

} // verus!
