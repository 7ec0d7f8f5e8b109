use vstd::prelude::*;
use vstd::string::*;

verus! {

/// The local actor's identity, keys, paths and policy flags; fixed for the
/// lifetime of a process.
pub struct Config {
    pub bind_address: String,
    pub domain: String,
    pub user: String,
    pub preferred_name: String,
    pub profile: String,
    pub avatar: String,
    pub banner: String,
    pub private_key: String,
    pub description: String,
    pub cache_dir: String,
    pub input_dir: String,
    pub image_dir: String,
    pub static_image_dir: String,
    pub output_dir: String,
    pub manually_approve_followers: bool,
    pub discoverable: bool,
    pub license: String,
    pub public_key: String,
}

impl Config {
    /// The actor id: `https://{domain}/users/{user}`.
    pub open spec fn actor_id_spec(&self) -> Seq<char> {
        "https://"@ + self.domain@ + "/users/"@ + self.user@
    }

    /// The actor id, built from the domain and the user name.
    pub fn actor_id(&self) -> (r: String)
        ensures
            r@ == self.actor_id_spec(),
    {
        let mut r = String::from_str("https://");
        r.append(self.domain.as_str());
        r.append("/users/");
        r.append(self.user.as_str());
        r
    }
}

} // verus!
