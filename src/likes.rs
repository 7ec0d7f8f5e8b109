use vstd::prelude::*;

verus! {

/// One like of a local object by a remote actor.
pub struct LikeRecord {
    pub object: String,
    pub actor: String,
    pub at: u64,
}

/// A like record as a mathematical value.
pub struct LikeView {
    pub object: Seq<char>,
    pub actor: Seq<char>,
    pub at: u64,
}

impl View for LikeRecord {
    type V = LikeView;

    open spec fn view(&self) -> LikeView {
        LikeView { object: self.object@, actor: self.actor@, at: self.at }
    }
}

/// The index of the like of `object` by `actor`, or -1 when there is none.
pub open spec fn find_like(recs: Seq<LikeView>, object: Seq<char>, actor: Seq<char>) -> int
    decreases recs.len(),
{
    if recs.len() == 0 {
        -1
    } else if recs.last().object == object && recs.last().actor == actor {
        recs.len() - 1
    } else {
        find_like(recs.drop_last(), object, actor)
    }
}

/// A Like: appended unless that actor already liked that object.
pub open spec fn like_spec(recs: Seq<LikeView>, object: Seq<char>, actor: Seq<char>, at: u64) -> Seq<
    LikeView,
> {
    if find_like(recs, object, actor) < 0 {
        recs.push(LikeView { object, actor, at })
    } else {
        recs
    }
}

/// The actors that liked `object`, in the order the likes came.
pub open spec fn likers_of(recs: Seq<LikeView>, object: Seq<char>) -> Seq<Seq<char>>
    decreases recs.len(),
{
    if recs.len() == 0 {
        Seq::empty()
    } else if recs.last().object == object {
        likers_of(recs.drop_last(), object).push(recs.last().actor)
    } else {
        likers_of(recs.drop_last(), object)
    }
}

/// Liking the same object twice from the same actor leaves one record: the
/// second like changes nothing, and the likers of the object gain the actor
/// once.
pub proof fn lemma_like_twice_one_record(
    recs: Seq<LikeView>,
    object: Seq<char>,
    actor: Seq<char>,
    t1: u64,
    t2: u64,
)
    requires
        find_like(recs, object, actor) < 0,
    ensures
        like_spec(like_spec(recs, object, actor, t1), object, actor, t2) == like_spec(
            recs,
            object,
            actor,
            t1,
        ),
        likers_of(like_spec(like_spec(recs, object, actor, t1), object, actor, t2), object)
            == likers_of(recs, object).push(actor),
{
    let r1 = like_spec(recs, object, actor, t1);
    assert(r1.drop_last() =~= recs);
}

/// Likes of one object from two different actors give two records.
pub proof fn lemma_two_actors_two_records(
    recs: Seq<LikeView>,
    object: Seq<char>,
    a1: Seq<char>,
    a2: Seq<char>,
    t1: u64,
    t2: u64,
)
    requires
        a1 != a2,
        find_like(recs, object, a1) < 0,
        find_like(recs, object, a2) < 0,
    ensures
        like_spec(like_spec(recs, object, a1, t1), object, a2, t2).len() == recs.len() + 2,
        likers_of(like_spec(like_spec(recs, object, a1, t1), object, a2, t2), object)
            == likers_of(recs, object).push(a1).push(a2),
{
    let r1 = like_spec(recs, object, a1, t1);
    assert(r1.drop_last() =~= recs);
    assert(find_like(r1, object, a2) < 0);
    let r2 = like_spec(r1, object, a2, t2);
    assert(r2.drop_last() =~= r1);
    assert(likers_of(r1, object) == likers_of(recs, object).push(a1));
    assert(likers_of(r2, object) == likers_of(r1, object).push(a2));
}

/// The likes received for local objects.
pub struct LikeStore {
    pub records: Vec<LikeRecord>,
}

impl View for LikeStore {
    type V = Seq<LikeView>;

    open spec fn view(&self) -> Seq<LikeView> {
        self.records@.map_values(|r: LikeRecord| r@)
    }
}

impl LikeStore {
    pub fn new() -> (r: LikeStore)
        ensures
            r@ == Seq::<LikeView>::empty(),
    {
        let r = LikeStore { records: Vec::new() };
        assert(r@ =~= Seq::<LikeView>::empty());
        r
    }

    /// Records that `actor` liked `object`; true when the like is new.
    pub fn record_like(&mut self, object: &String, actor: &String, at: u64) -> (r: bool)
        ensures
            r == (find_like(old(self)@, object@, actor@) < 0),
            final(self)@ == like_spec(old(self)@, object@, actor@, at),
    {
        let mut i: usize = self.records.len();
        assert(self@.subrange(0, i as int) =~= self@);
        while i > 0
            invariant
                i <= self.records@.len(),
                find_like(self@, object@, actor@) == find_like(
                    self@.subrange(0, i as int),
                    object@,
                    actor@,
                ),
            decreases i,
        {
            let ghost sub = self@.subrange(0, i as int);
            assert(sub.drop_last() =~= self@.subrange(0, i - 1));
            if self.records[i - 1].object == *object && self.records[i - 1].actor == *actor {
                return false;
            }
            i = i - 1;
        }
        assert(self@.subrange(0, 0) =~= Seq::<LikeView>::empty());
        self.records.push(LikeRecord { object: object.clone(), actor: actor.clone(), at });
        assert(self@ =~= like_spec(old(self)@, object@, actor@, at));
        true
    }

    /// The actors that liked `object`, in the order the likes came.
    pub fn list_likes(&self, object: &String) -> (r: Vec<String>)
        ensures
            r@.map_values(|s: String| s@) == likers_of(self@, object@),
    {
        let mut out: Vec<String> = Vec::new();
        let mut i: usize = 0;
        while i < self.records.len()
            invariant
                i <= self.records@.len(),
                out@.map_values(|s: String| s@) == likers_of(self@.subrange(0, i as int), object@),
            decreases self.records@.len() - i,
        {
            let ghost sub = self@.subrange(0, i + 1);
            assert(sub.drop_last() =~= self@.subrange(0, i as int));
            if self.records[i].object == *object {
                out.push(self.records[i].actor.clone());
            }
            i = i + 1;
            assert(out@.map_values(|s: String| s@) =~= likers_of(
                self@.subrange(0, i as int),
                object@,
            ));
        }
        assert(self@.subrange(0, i as int) =~= self@);
        out
    }
}

} // verus!
