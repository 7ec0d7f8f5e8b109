//! A single-actor federation core: identity, discovery, follower and like
//! bookkeeping, inbound activity dispatch and request-signature acceptance.

mod actor;
mod config;
mod content;
mod digest;
mod followers;
mod inbox;
mod likes;
mod signature;
mod webfinger;

pub use actor::{actor_document, ActorDocument};
pub use config::Config;
pub use content::{
    insert_by_stamp, lemma_outbox_newest_first, newest_first, object_id, outbox_order,
    outbox_order_spec, render_item, ContentItem, FederatedObject, ObjectKind,
};
pub use digest::{base64_of, body_digest, digest_header_of, sha256_of};
pub use followers::{
    actors_unique, apply_event, apply_events, approve_spec, approved_actors, duplicated,
    find_follower, follow_spec, lemma_duplicate_delivery_is_harmless,
    lemma_events_keep_actors_unique, lemma_manual_approval_policy, undo_spec, FollowEvent,
    FollowResult, FollowState, FollowerRecord, FollowerStore, FollowerView,
};
pub use inbox::{accept_owed, handle_activity, views_of, Activity, InboxError, Reply};
pub use likes::{
    find_like, lemma_like_twice_one_record, lemma_two_actors_two_records, like_spec, likers_of,
    LikeRecord, LikeStore, LikeView,
};
pub use signature::{
    check_request, lemma_tampering_rejected, request_outcome, signing_string,
    signing_string_spec, verify_request, SignatureError, MAX_CLOCK_SKEW,
};
pub use webfinger::{acct_of, webfinger, Link, WebFinger};
