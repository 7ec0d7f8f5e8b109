use vstd::prelude::*;
use vstd::string::*;

use crate::config::Config;

verus! {

/// The ActivityStreams type of a published object.
#[derive(Clone, Copy, PartialEq, Eq, Structural, Debug)]
pub enum ObjectKind {
    Note,
    Article,
}

/// One local unit of content, as read from its file.
pub struct ContentItem {
    /// Path of the source file, relative to the input root.
    pub path: String,
    /// Articles have a title, notes have none.
    pub title: Option<String>,
    pub body: String,
    /// The publish time as written in the file (RFC 3339).
    pub published: String,
    /// The publish time in seconds, for ordering.
    pub stamp: u64,
}

/// A content item as an ActivityStreams object.
pub struct FederatedObject {
    pub id: String,
    pub kind: ObjectKind,
    pub attributed_to: String,
    pub content: String,
    pub published: String,
    pub name: Option<String>,
}

/// The object id: the actor id, `/posts/`, and the source path.
pub open spec fn object_id(config: &Config, path: Seq<char>) -> Seq<char> {
    config.actor_id_spec() + "/posts/"@ + path
}

/// Renders one content item: an Article named by its title, or a Note where
/// it has none. The result depends on the configuration and the item alone.
pub fn render_item(config: &Config, item: &ContentItem) -> (r: FederatedObject)
    ensures
        r.id@ == object_id(config, item.path@),
        r.kind == if item.title.is_some() {
            ObjectKind::Article
        } else {
            ObjectKind::Note
        },
        r.attributed_to@ == config.actor_id_spec(),
        r.content@ == item.body@,
        r.published@ == item.published@,
        r.name.is_some() == item.title.is_some(),
        r.name matches Some(n) ==> item.title matches Some(t) && n@ == t@,
{
    let actor = config.actor_id();
    let mut id = actor.clone();
    id.append("/posts/");
    id.append(item.path.as_str());
    let (kind, name) = match &item.title {
        Some(t) => (ObjectKind::Article, Some(t.clone())),
        None => (ObjectKind::Note, None),
    };
    FederatedObject {
        id,
        kind,
        attributed_to: actor,
        content: item.body.clone(),
        published: item.published.clone(),
        name,
    }
}

/// Inserts index `x` before the first entry whose stamp is strictly older,
/// so that entries of equal stamp keep their order.
pub open spec fn insert_by_stamp(s: Seq<usize>, stamps: Seq<u64>, x: usize) -> Seq<usize>
    decreases s.len(),
{
    if s.len() == 0 {
        seq![x]
    } else if stamps[x as int] > stamps[s[0] as int] {
        seq![x] + s
    } else {
        seq![s[0]] + insert_by_stamp(s.skip(1), stamps, x)
    }
}

/// The outbox order of the first `n` items: newest first, items of equal
/// stamp in the order given.
pub open spec fn outbox_order_spec(stamps: Seq<u64>, n: nat) -> Seq<usize>
    decreases n,
{
    if n == 0 {
        Seq::empty()
    } else {
        insert_by_stamp(outbox_order_spec(stamps, (n - 1) as nat), stamps, (n - 1) as usize)
    }
}

pub open spec fn newest_first(s: Seq<usize>, stamps: Seq<u64>) -> bool {
    forall|k: int| 0 <= k < s.len() - 1 ==> stamps[#[trigger] s[k] as int] >= stamps[s[k + 1] as int]
}

proof fn lemma_insert_at(s: Seq<usize>, stamps: Seq<u64>, x: usize, j: int)
    requires
        0 <= j <= s.len(),
        forall|k: int| 0 <= k < j ==> !(stamps[x as int] > stamps[s[k] as int]),
        j == s.len() || stamps[x as int] > stamps[s[j] as int],
    ensures
        insert_by_stamp(s, stamps, x) == s.insert(j, x),
    decreases s.len(),
{
    if s.len() == 0 {
        assert(s.insert(j, x) =~= seq![x]);
    } else if j == 0 {
        assert(s.insert(j, x) =~= seq![x] + s);
    } else {
        let t = s.skip(1);
        assert forall|k: int| 0 <= k < j - 1 implies !(stamps[x as int] > stamps[t[k] as int]) by {
            assert(t[k] == s[k + 1]);
        }
        lemma_insert_at(t, stamps, x, j - 1);
        assert(seq![s[0]] + t.insert(j - 1, x) =~= s.insert(j, x));
    }
}

proof fn lemma_insert_newest_first(s: Seq<usize>, stamps: Seq<u64>, x: usize)
    requires
        newest_first(s, stamps),
    ensures
        newest_first(insert_by_stamp(s, stamps, x), stamps),
        insert_by_stamp(s, stamps, x).len() == s.len() + 1,
        insert_by_stamp(s, stamps, x)[0] == x || (s.len() > 0 && insert_by_stamp(s, stamps, x)[0]
            == s[0]),
    decreases s.len(),
{
    if s.len() > 0 && !(stamps[x as int] > stamps[s[0] as int]) {
        let t = s.skip(1);
        assert(newest_first(t, stamps)) by {
            assert forall|k: int| 0 <= k < t.len() - 1 implies stamps[#[trigger] t[k] as int] >= stamps[t[k
                + 1] as int] by {
                assert(t[k] == s[k + 1] && t[k + 1] == s[k + 2]);
            }
        }
        lemma_insert_newest_first(t, stamps, x);
        let it = insert_by_stamp(t, stamps, x);
        let r = seq![s[0]] + it;
        assert forall|k: int| 0 <= k < r.len() - 1 implies stamps[#[trigger] r[k] as int] >= stamps[r[k
            + 1] as int] by {
            if k == 0 {
                assert(r[1] == it[0]);
                if t.len() > 0 && it[0] == t[0] {
                    assert(t[0] == s[1]);
                }
            } else {
                assert(r[k] == it[k - 1] && r[k + 1] == it[k]);
            }
        }
    } else if s.len() > 0 {
        let r = seq![x] + s;
        assert forall|k: int| 0 <= k < r.len() - 1 implies stamps[#[trigger] r[k] as int] >= stamps[r[k
            + 1] as int] by {
            if k > 0 {
                assert(r[k] == s[k - 1] && r[k + 1] == s[k]);
            }
        }
    }
}

/// The outbox is listed newest first.
pub proof fn lemma_outbox_newest_first(stamps: Seq<u64>, n: nat)
    ensures
        newest_first(outbox_order_spec(stamps, n), stamps),
        outbox_order_spec(stamps, n).len() == n,
    decreases n,
{
    if n > 0 {
        lemma_outbox_newest_first(stamps, (n - 1) as nat);
        lemma_insert_newest_first(
            outbox_order_spec(stamps, (n - 1) as nat),
            stamps,
            (n - 1) as usize,
        );
    }
}

/// The order in which the items stand in the outbox, as indices into
/// `items`: newest first, items of equal stamp in the order given. The
/// order is a function of the stamps alone, so listing unchanged content
/// again gives the same order.
pub fn outbox_order(items: &Vec<ContentItem>) -> (r: Vec<usize>)
    ensures
        r@ == outbox_order_spec(items@.map_values(|c: ContentItem| c.stamp), items@.len()),
        newest_first(r@, items@.map_values(|c: ContentItem| c.stamp)),
{
    let ghost stamps = items@.map_values(|c: ContentItem| c.stamp);
    let mut out: Vec<usize> = Vec::new();
    let mut i: usize = 0;
    while i < items.len()
        invariant
            i <= items@.len(),
            stamps == items@.map_values(|c: ContentItem| c.stamp),
            out@ == outbox_order_spec(stamps, i as nat),
            out@.len() == i,
            forall|k: int| 0 <= k < out@.len() ==> out@[k] < i,
        decreases items@.len() - i,
    {
        proof {
            lemma_outbox_newest_first(stamps, i as nat);
        }
        let mut j: usize = 0;
        while j < out.len() && !(items[i].stamp > items[out[j]].stamp)
            invariant
                i < items@.len(),
                j <= out@.len(),
                stamps == items@.map_values(|c: ContentItem| c.stamp),
                forall|k: int| 0 <= k < out@.len() ==> out@[k] < i,
                forall|k: int| 0 <= k < j ==> !(stamps[i as int] > stamps[out@[k] as int]),
            decreases out@.len() - j,
        {
            j = j + 1;
        }
        proof {
            lemma_insert_at(out@, stamps, i, j as int);
        }
        out.insert(j, i);
        i = i + 1;
    }
    proof {
        lemma_outbox_newest_first(stamps, items@.len());
    }
    out
}

} // verus!
