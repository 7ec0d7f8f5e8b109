use vstd::prelude::*;
use vstd::string::*;

use crate::config::Config;

verus! {

/// One link of a WebFinger answer.
pub struct Link {
    pub rel: String,
    pub media_type: String,
    pub href: String,
}

/// A WebFinger answer: the subject queried and its links.
pub struct WebFinger {
    pub subject: String,
    pub links: Vec<Link>,
}

/// The only resource this server answers for: `acct:{user}@{domain}`.
pub open spec fn acct_of(config: &Config) -> Seq<char> {
    "acct:"@ + config.user@ + "@"@ + config.domain@
}

/// Resolves a WebFinger `resource` query. The local account gets one `self`
/// link to the actor id; any other resource is unknown (`None`).
pub fn webfinger(config: &Config, resource: &String) -> (r: Option<WebFinger>)
    ensures
        r.is_some() <==> resource@ == acct_of(config),
        r matches Some(w) ==> {
            &&& w.subject@ == resource@
            &&& w.links@.len() == 1
            &&& w.links@[0].rel@ == "self"@
            &&& w.links@[0].media_type@ == "application/activity+json"@
            &&& w.links@[0].href@ == config.actor_id_spec()
        },
{
    let mut acct = String::from_str("acct:");
    acct.append(config.user.as_str());
    acct.append("@");
    acct.append(config.domain.as_str());
    if acct == *resource {
        let link = Link {
            rel: String::from_str("self"),
            media_type: String::from_str("application/activity+json"),
            href: config.actor_id(),
        };
        let mut links: Vec<Link> = Vec::new();
        links.push(link);
        Some(WebFinger { subject: resource.clone(), links })
    } else {
        None
    }
}

} // verus!
