use vstd::prelude::*;
use vstd::string::*;

use crate::config::Config;

verus! {

/// The public actor profile, derived from the configuration alone.
pub struct ActorDocument {
    pub id: String,
    pub inbox: String,
    pub outbox: String,
    pub followers: String,
    pub following: String,
    pub likes: String,
    pub preferred_username: String,
    pub name: String,
    pub summary: String,
    pub icon: String,
    pub image: String,
    pub public_key_id: String,
    pub public_key_pem: String,
    pub manually_approves_followers: bool,
    pub discoverable: bool,
}

fn endpoint(actor: &String, suffix: &str) -> (r: String)
    ensures
        r@ == actor@ + suffix@,
{
    let mut r = actor.clone();
    r.append(suffix);
    r
}

/// Assembles the actor document: the endpoints hang under the actor id, and
/// the key id is `{actor id}#main-key`.
pub fn actor_document(config: &Config) -> (r: ActorDocument)
    ensures
        r.id@ == config.actor_id_spec(),
        r.inbox@ == config.actor_id_spec() + "/inbox"@,
        r.outbox@ == config.actor_id_spec() + "/outbox"@,
        r.followers@ == config.actor_id_spec() + "/followers"@,
        r.following@ == config.actor_id_spec() + "/following"@,
        r.likes@ == config.actor_id_spec() + "/likes"@,
        r.public_key_id@ == config.actor_id_spec() + "#main-key"@,
        r.public_key_pem@ == config.public_key@,
        r.preferred_username@ == config.user@,
        r.name@ == config.preferred_name@,
        r.summary@ == config.description@,
        r.icon@ == config.avatar@,
        r.image@ == config.banner@,
        r.manually_approves_followers == config.manually_approve_followers,
        r.discoverable == config.discoverable,
{
    let id = config.actor_id();
    ActorDocument {
        inbox: endpoint(&id, "/inbox"),
        outbox: endpoint(&id, "/outbox"),
        followers: endpoint(&id, "/followers"),
        following: endpoint(&id, "/following"),
        likes: endpoint(&id, "/likes"),
        public_key_id: endpoint(&id, "#main-key"),
        id,
        public_key_pem: config.public_key.clone(),
        preferred_username: config.user.clone(),
        name: config.preferred_name.clone(),
        summary: config.description.clone(),
        icon: config.avatar.clone(),
        image: config.banner.clone(),
        manually_approves_followers: config.manually_approve_followers,
        discoverable: config.discoverable,
    }
}

} // verus!
