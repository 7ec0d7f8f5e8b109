use chactivityserver::{outbox_order, render_item, Config, ContentItem, ObjectKind};

fn s(x: &str) -> String {
    x.to_string()
}

fn config() -> Config {
    Config {
        bind_address: s("0.0.0.0:8080"),
        domain: s("example.org"),
        user: s("chef"),
        preferred_name: s("Chef"),
        profile: s(""),
        avatar: s(""),
        banner: s(""),
        private_key: s(""),
        description: s(""),
        cache_dir: s(""),
        input_dir: s("input"),
        image_dir: s(""),
        static_image_dir: s(""),
        output_dir: s(""),
        manually_approve_followers: false,
        discoverable: false,
        license: s(""),
        public_key: s(""),
    }
}

fn item(path: &str, title: Option<&str>, published: &str, stamp: u64) -> ContentItem {
    ContentItem {
        path: s(path),
        title: title.map(s),
        body: s("..."),
        published: s(published),
        stamp,
    }
}

#[test]
fn article_with_title_renders_as_article() {
    let it = item("soup.md", Some("Soup"), "2023-01-01T00:00:00Z", 1672531200);
    let o = render_item(&config(), &it);
    assert_eq!(o.kind, ObjectKind::Article);
    assert_eq!(o.name, Some(s("Soup")));
    assert_eq!(o.published, "2023-01-01T00:00:00Z");
    assert_eq!(o.content, "...");
    assert_eq!(o.attributed_to, "https://example.org/users/chef");
    assert_eq!(o.id, "https://example.org/users/chef/posts/soup.md");
}

#[test]
fn item_without_title_renders_as_note() {
    let it = item("notes/1.md", None, "2023-02-01T00:00:00Z", 1675209600);
    let o = render_item(&config(), &it);
    assert_eq!(o.kind, ObjectKind::Note);
    assert_eq!(o.name, None);
    assert_eq!(o.id, "https://example.org/users/chef/posts/notes/1.md");
}

#[test]
fn rendering_is_deterministic() {
    let it = item("soup.md", Some("Soup"), "2023-01-01T00:00:00Z", 1672531200);
    let a = render_item(&config(), &it);
    let b = render_item(&config(), &it);
    assert_eq!((a.id, a.content, a.published, a.name), (b.id, b.content, b.published, b.name));
}

#[test]
fn outbox_is_newest_first_and_stable() {
    let items = vec![
        item("a.md", None, "", 10),
        item("b.md", None, "", 30),
        item("c.md", None, "", 20),
        item("d.md", None, "", 30),
        item("e.md", None, "", 5),
    ];
    let order = outbox_order(&items);
    assert_eq!(order, vec![1, 3, 2, 0, 4]);
    assert_eq!(outbox_order(&items), order);
}

#[test]
fn outbox_of_nothing_is_empty() {
    assert!(outbox_order(&vec![]).is_empty());
}
