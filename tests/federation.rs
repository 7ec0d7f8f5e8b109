use chactivityserver::{
    actor_document, signing_string, check_request, handle_activity, webfinger, Activity, Config, FollowResult, FollowState,
    FollowerStore, InboxError, LikeStore, Reply, SignatureError,
};

fn s(x: &str) -> String {
    x.to_string()
}

fn config(manual: bool) -> Config {
    Config {
        bind_address: s("0.0.0.0:8080"),
        domain: s("example.org"),
        user: s("chef"),
        preferred_name: s("Chef"),
        profile: s("https://example.org/"),
        avatar: s("avatar.png"),
        banner: s("banner.png"),
        private_key: s("private.pem"),
        description: s("Recipes"),
        cache_dir: s("cache"),
        input_dir: s("input"),
        image_dir: s("images"),
        static_image_dir: s("static/images"),
        output_dir: s("output"),
        manually_approve_followers: manual,
        discoverable: true,
        license: s("CC-BY"),
        public_key: s("public.pem"),
    }
}

#[test]
fn actor_id_is_built_from_domain_and_user() {
    assert_eq!(config(false).actor_id(), "https://example.org/users/chef");
}

#[test]
fn webfinger_finds_local_account_once() {
    let c = config(false);
    let w = webfinger(&c, &s("acct:chef@example.org")).expect("known account");
    assert_eq!(w.subject, "acct:chef@example.org");
    let selfs: Vec<_> = w.links.iter().filter(|l| l.rel == "self").collect();
    assert_eq!(selfs.len(), 1);
    assert_eq!(selfs[0].href, "https://example.org/users/chef");
    assert_eq!(selfs[0].media_type, "application/activity+json");
}

#[test]
fn webfinger_unknown_resource_is_none() {
    let c = config(false);
    assert!(webfinger(&c, &s("acct:other@example.org")).is_none());
    assert!(webfinger(&c, &s("acct:chef@elsewhere.org")).is_none());
    assert!(webfinger(&c, &s("")).is_none());
}

#[test]
fn follow_auto_approved_and_accept_sent() {
    let mut f = FollowerStore::new();
    let mut l = LikeStore::new();
    let act = Activity::Follow { actor: s("https://r.net/u/a"), inbox: s("https://r.net/u/a/inbox") };
    let r = handle_activity(&mut f, &mut l, &s("https://r.net/u/a"), &act, &vec![], false, 10);
    match r {
        Ok(Reply::SendAccept { inbox }) => assert_eq!(inbox, "https://r.net/u/a/inbox"),
        _ => panic!("an Accept is owed"),
    }
    assert_eq!(f.list_approved(), vec![s("https://r.net/u/a")]);
}

#[test]
fn follow_manual_stays_pending_until_approved() {
    let mut f = FollowerStore::new();
    let mut l = LikeStore::new();
    let act = Activity::Follow { actor: s("https://r.net/u/a"), inbox: s("https://r.net/u/a/inbox") };
    let r = handle_activity(&mut f, &mut l, &s("https://r.net/u/a"), &act, &vec![], true, 10);
    assert!(matches!(r, Ok(Reply::Nothing)));
    assert!(f.list_approved().is_empty());
    assert_eq!(f.records[0].state, FollowState::Pending);
    assert!(f.approve(&s("https://r.net/u/a")));
    assert_eq!(f.list_approved(), vec![s("https://r.net/u/a")]);
    assert!(!f.approve(&s("https://r.net/u/a")));
}

#[test]
fn duplicate_follow_and_undo_are_idempotent() {
    let a = s("https://r.net/u/a");
    let inbox = s("https://r.net/u/a/inbox");
    let mut once = FollowerStore::new();
    assert_eq!(once.apply_follow(&a, &inbox, 1, false), FollowResult::NewlyApproved);
    assert!(once.apply_undo_follow(&a));
    let mut twice = FollowerStore::new();
    assert_eq!(twice.apply_follow(&a, &inbox, 1, false), FollowResult::NewlyApproved);
    assert_eq!(twice.apply_follow(&a, &inbox, 2, false), FollowResult::AlreadyApproved);
    assert!(twice.apply_undo_follow(&a));
    assert!(!twice.apply_undo_follow(&a));
    assert_eq!(once.records.len(), 1);
    assert_eq!(twice.records.len(), 1);
    assert_eq!(once.records[0].state, FollowState::Removed);
    assert_eq!(twice.records[0].state, FollowState::Removed);
    assert_eq!(twice.records[0].first_seen, 1);
    assert_eq!(twice.apply_follow(&a, &inbox, 3, false), FollowResult::AlreadyRemoved);
    assert!(twice.list_approved().is_empty());
}

#[test]
fn undo_from_another_signer_is_refused() {
    let mut f = FollowerStore::new();
    let mut l = LikeStore::new();
    f.apply_follow(&s("a"), &s("a/inbox"), 1, false);
    let act = Activity::UndoFollow { actor: s("b"), follow_actor: s("a") };
    let r = handle_activity(&mut f, &mut l, &s("b"), &act, &vec![], false, 2);
    assert!(matches!(r, Err(InboxError::SignatureInvalid)));
    assert_eq!(f.list_approved(), vec![s("a")]);
    let act = Activity::UndoFollow { actor: s("a"), follow_actor: s("a") };
    let r = handle_activity(&mut f, &mut l, &s("a"), &act, &vec![], false, 3);
    assert!(matches!(r, Ok(Reply::Nothing)));
    assert!(f.list_approved().is_empty());
}

#[test]
fn like_twice_same_actor_one_record() {
    let mut l = LikeStore::new();
    assert!(l.record_like(&s("post/1"), &s("a"), 1));
    assert!(!l.record_like(&s("post/1"), &s("a"), 2));
    assert_eq!(l.records.len(), 1);
    assert_eq!(l.list_likes(&s("post/1")), vec![s("a")]);
}

#[test]
fn like_from_two_actors_two_records() {
    let mut l = LikeStore::new();
    assert!(l.record_like(&s("post/1"), &s("a"), 1));
    assert!(l.record_like(&s("post/1"), &s("b"), 2));
    assert!(l.record_like(&s("post/2"), &s("a"), 3));
    assert_eq!(l.records.len(), 3);
    assert_eq!(l.list_likes(&s("post/1")), vec![s("a"), s("b")]);
}

#[test]
fn like_of_unknown_object_is_refused() {
    let mut f = FollowerStore::new();
    let mut l = LikeStore::new();
    let local = vec![s("post/1")];
    let act = Activity::Like { actor: s("a"), object: s("post/9") };
    let r = handle_activity(&mut f, &mut l, &s("a"), &act, &local, false, 1);
    assert!(matches!(r, Err(InboxError::ContentParseError)));
    assert!(l.records.is_empty());
    let act = Activity::Like { actor: s("a"), object: s("post/1") };
    let r = handle_activity(&mut f, &mut l, &s("a"), &act, &local, false, 1);
    assert!(matches!(r, Ok(Reply::Nothing)));
    assert_eq!(l.records.len(), 1);
}

#[test]
fn create_is_ignored_and_other_activities_refused() {
    let mut f = FollowerStore::new();
    let mut l = LikeStore::new();
    let r = handle_activity(&mut f, &mut l, &s("a"), &Activity::Create { actor: s("a") }, &vec![], false, 1);
    assert!(matches!(r, Ok(Reply::Nothing)));
    let r = handle_activity(&mut f, &mut l, &s("a"), &Activity::Unsupported, &vec![], false, 1);
    assert!(matches!(r, Err(InboxError::UnsupportedActivity)));
    assert!(f.records.is_empty() && l.records.is_empty());
}

#[test]
fn tampered_body_or_wrong_signature_is_invalid() {
    let d = s("SHA-256=abc");
    assert_eq!(check_request(true, &d, &s("SHA-256=xyz"), true, 100, 100), Err(SignatureError::SignatureInvalid));
    assert_eq!(check_request(true, &d, &d, false, 100, 100), Err(SignatureError::SignatureInvalid));
    assert_eq!(check_request(true, &d, &d, true, 100, 100), Ok(()));
}

#[test]
fn unresolved_key_and_clock_skew() {
    let d = s("SHA-256=abc");
    assert_eq!(check_request(false, &d, &d, true, 100, 100), Err(SignatureError::KeyUnresolvable));
    assert_eq!(check_request(true, &d, &d, true, 1000, 1720), Ok(()));
    assert_eq!(check_request(true, &d, &d, true, 1000, 1721), Err(SignatureError::ClockSkew));
    assert_eq!(check_request(true, &d, &d, true, 1721, 1000), Err(SignatureError::ClockSkew));
    assert_eq!(check_request(true, &d, &d, true, 1720, 1000), Ok(()));
}

#[test]
fn actor_document_endpoints_and_key() {
    let d = actor_document(&config(true));
    assert_eq!(d.id, "https://example.org/users/chef");
    assert_eq!(d.inbox, "https://example.org/users/chef/inbox");
    assert_eq!(d.outbox, "https://example.org/users/chef/outbox");
    assert_eq!(d.followers, "https://example.org/users/chef/followers");
    assert_eq!(d.following, "https://example.org/users/chef/following");
    assert_eq!(d.likes, "https://example.org/users/chef/likes");
    assert_eq!(d.public_key_id, "https://example.org/users/chef#main-key");
    assert_eq!(d.public_key_pem, "public.pem");
    assert_eq!(d.preferred_username, "chef");
    assert_eq!(d.name, "Chef");
    assert!(d.manually_approves_followers);
    assert!(d.discoverable);
}

#[test]
fn signing_string_joins_headers() {
    let r = signing_string(&s("post"), &s("/users/chef/inbox"), &s("example.org"), &s("Sun, 01 Jan 2023 00:00:00 GMT"), &s("SHA-256=abc"));
    assert_eq!(r, "(request-target): post /users/chef/inbox\nhost: example.org\ndate: Sun, 01 Jan 2023 00:00:00 GMT\ndigest: SHA-256=abc");
}

#[test]
fn body_digest_of_empty_body() {
    assert_eq!(
        chactivityserver::body_digest(b""),
        "SHA-256=47DEQpj8HBSa+/TImW+5JCeuQeRkm5NMpJWZG3hSuFU="
    );
}

#[test]
fn tampered_body_fails_digest_check() {
    let body = b"{\"type\":\"Follow\"}".to_vec();
    let header = chactivityserver::body_digest(&body);
    assert_eq!(chactivityserver::verify_request(true, &header, &body, true, 50, 60), Ok(()));
    let tampered = b"{\"type\":\"Undo\"}".to_vec();
    assert_eq!(
        chactivityserver::verify_request(true, &header, &tampered, true, 50, 60),
        Err(SignatureError::SignatureInvalid)
    );
    assert_eq!(
        chactivityserver::verify_request(true, &header, &body, false, 50, 60),
        Err(SignatureError::SignatureInvalid)
    );
}
