use vstd::prelude::*;

verus! {

/// Where a follower stands. It only moves forward: Pending to Approved,
/// Pending or Approved to Removed; Removed is final.
#[derive(Clone, Copy, PartialEq, Eq, Structural, Debug)]
pub enum FollowState {
    Pending,
    Approved,
    Removed,
}

/// What a Follow did to the store.
#[derive(Clone, Copy, PartialEq, Eq, Structural, Debug)]
pub enum FollowResult {
    AlreadyApproved,
    AlreadyPending,
    AlreadyRemoved,
    NewlyPending,
    NewlyApproved,
}

/// One remote follower, keyed by its actor URI.
pub struct FollowerRecord {
    pub actor: String,
    pub inbox: String,
    pub state: FollowState,
    pub first_seen: u64,
}

/// A follower record as a mathematical value.
pub struct FollowerView {
    pub actor: Seq<char>,
    pub inbox: Seq<char>,
    pub state: FollowState,
    pub first_seen: u64,
}

impl View for FollowerRecord {
    type V = FollowerView;

    open spec fn view(&self) -> FollowerView {
        FollowerView {
            actor: self.actor@,
            inbox: self.inbox@,
            state: self.state,
            first_seen: self.first_seen,
        }
    }
}

/// A follower-lifecycle event as delivered to the store.
pub enum FollowEvent {
    Follow { actor: Seq<char>, inbox: Seq<char>, now: u64 },
    Undo { actor: Seq<char> },
    Approve { actor: Seq<char> },
}

/// The index of the record of `actor`, or -1 when there is none.
pub open spec fn find_follower(recs: Seq<FollowerView>, actor: Seq<char>) -> int
    decreases recs.len(),
{
    if recs.len() == 0 {
        -1
    } else if recs.last().actor == actor {
        recs.len() - 1
    } else {
        find_follower(recs.drop_last(), actor)
    }
}

/// A Follow: a new record (Pending under manual approval, else Approved), or
/// nothing where the actor already has one.
pub open spec fn follow_spec(
    recs: Seq<FollowerView>,
    actor: Seq<char>,
    inbox: Seq<char>,
    now: u64,
    manual: bool,
) -> Seq<FollowerView> {
    if find_follower(recs, actor) < 0 {
        recs.push(
            FollowerView {
                actor,
                inbox,
                state: if manual { FollowState::Pending } else { FollowState::Approved },
                first_seen: now,
            },
        )
    } else {
        recs
    }
}

/// An Undo(Follow): a Pending or Approved record becomes Removed.
pub open spec fn undo_spec(recs: Seq<FollowerView>, actor: Seq<char>) -> Seq<FollowerView> {
    let i = find_follower(recs, actor);
    if i >= 0 && recs[i].state != FollowState::Removed {
        recs.update(i, FollowerView { state: FollowState::Removed, ..recs[i] })
    } else {
        recs
    }
}

/// An approval: a Pending record becomes Approved.
pub open spec fn approve_spec(recs: Seq<FollowerView>, actor: Seq<char>) -> Seq<FollowerView> {
    let i = find_follower(recs, actor);
    if i >= 0 && recs[i].state == FollowState::Pending {
        recs.update(i, FollowerView { state: FollowState::Approved, ..recs[i] })
    } else {
        recs
    }
}

pub open spec fn apply_event(recs: Seq<FollowerView>, e: FollowEvent, manual: bool) -> Seq<
    FollowerView,
> {
    match e {
        FollowEvent::Follow { actor, inbox, now } => follow_spec(recs, actor, inbox, now, manual),
        FollowEvent::Undo { actor } => undo_spec(recs, actor),
        FollowEvent::Approve { actor } => approve_spec(recs, actor),
    }
}

/// The store after the events, in order.
pub open spec fn apply_events(recs: Seq<FollowerView>, es: Seq<FollowEvent>, manual: bool) -> Seq<
    FollowerView,
>
    decreases es.len(),
{
    if es.len() == 0 {
        recs
    } else {
        apply_event(apply_events(recs, es.drop_last(), manual), es.last(), manual)
    }
}

/// The events with each one delivered twice in a row.
pub open spec fn duplicated(es: Seq<FollowEvent>) -> Seq<FollowEvent>
    decreases es.len(),
{
    if es.len() == 0 {
        es
    } else {
        duplicated(es.drop_last()).push(es.last()).push(es.last())
    }
}

/// The actors of the Approved records, in insertion order.
pub open spec fn approved_actors(recs: Seq<FollowerView>) -> Seq<Seq<char>>
    decreases recs.len(),
{
    if recs.len() == 0 {
        Seq::empty()
    } else if recs.last().state == FollowState::Approved {
        approved_actors(recs.drop_last()).push(recs.last().actor)
    } else {
        approved_actors(recs.drop_last())
    }
}

proof fn lemma_find_same_actors(a: Seq<FollowerView>, b: Seq<FollowerView>, actor: Seq<char>)
    requires
        a.len() == b.len(),
        forall|k: int| 0 <= k < a.len() ==> a[k].actor == b[k].actor,
    ensures
        find_follower(a, actor) == find_follower(b, actor),
    decreases a.len(),
{
    if a.len() > 0 {
        lemma_find_same_actors(a.drop_last(), b.drop_last(), actor);
    }
}

proof fn lemma_find_bounds(recs: Seq<FollowerView>, actor: Seq<char>)
    ensures
        -1 <= find_follower(recs, actor) < recs.len(),
        find_follower(recs, actor) >= 0 ==> recs[find_follower(recs, actor)].actor == actor,
    decreases recs.len(),
{
    if recs.len() > 0 {
        lemma_find_bounds(recs.drop_last(), actor);
    }
}

proof fn lemma_event_idempotent(recs: Seq<FollowerView>, e: FollowEvent, manual: bool)
    ensures
        apply_event(apply_event(recs, e, manual), e, manual) == apply_event(recs, e, manual),
{
    match e {
        FollowEvent::Follow { actor, inbox, now } => {
            lemma_find_bounds(recs, actor);
            let r1 = follow_spec(recs, actor, inbox, now, manual);
            if find_follower(recs, actor) < 0 {
                assert(r1.drop_last() =~= recs);
            }
        },
        FollowEvent::Undo { actor } => {
            lemma_find_bounds(recs, actor);
            let r1 = undo_spec(recs, actor);
            lemma_find_same_actors(recs, r1, actor);
        },
        FollowEvent::Approve { actor } => {
            lemma_find_bounds(recs, actor);
            let r1 = approve_spec(recs, actor);
            lemma_find_same_actors(recs, r1, actor);
        },
    }
}

/// No two records share an actor.
pub open spec fn actors_unique(recs: Seq<FollowerView>) -> bool {
    forall|i: int, j: int|
        0 <= i < j < recs.len() ==> #[trigger] recs[i].actor != #[trigger] recs[j].actor
}

proof fn lemma_find_absent(recs: Seq<FollowerView>, actor: Seq<char>)
    requires
        find_follower(recs, actor) < 0,
    ensures
        forall|k: int| 0 <= k < recs.len() ==> #[trigger] recs[k].actor != actor,
    decreases recs.len(),
{
    if recs.len() > 0 {
        lemma_find_absent(recs.drop_last(), actor);
        assert forall|k: int| 0 <= k < recs.len() implies #[trigger] recs[k].actor != actor by {
            if k < recs.len() - 1 {
                assert(recs.drop_last()[k] == recs[k]);
            }
        }
    }
}

/// Every event keeps the actor URI a unique key of the store.
pub proof fn lemma_events_keep_actors_unique(
    recs: Seq<FollowerView>,
    es: Seq<FollowEvent>,
    manual: bool,
)
    requires
        actors_unique(recs),
    ensures
        actors_unique(apply_events(recs, es, manual)),
    decreases es.len(),
{
    if es.len() > 0 {
        lemma_events_keep_actors_unique(recs, es.drop_last(), manual);
        let base = apply_events(recs, es.drop_last(), manual);
        match es.last() {
            FollowEvent::Follow { actor, inbox, now } => {
                if find_follower(base, actor) < 0 {
                    lemma_find_absent(base, actor);
                    let r = follow_spec(base, actor, inbox, now, manual);
                    assert forall|i: int, j: int|
                        0 <= i < j < r.len() implies #[trigger] r[i].actor
                        != #[trigger] r[j].actor by {
                        if j == r.len() - 1 {
                            assert(r[i] == base[i]);
                        } else {
                            assert(r[i] == base[i] && r[j] == base[j]);
                        }
                    }
                }
            },
            FollowEvent::Undo { actor } => {
                lemma_find_bounds(base, actor);
                let r = undo_spec(base, actor);
                assert forall|i: int, j: int|
                    0 <= i < j < r.len() implies #[trigger] r[i].actor
                    != #[trigger] r[j].actor by {
                    assert(r[i].actor == base[i].actor && r[j].actor == base[j].actor);
                }
            },
            FollowEvent::Approve { actor } => {
                lemma_find_bounds(base, actor);
                let r = approve_spec(base, actor);
                assert forall|i: int, j: int|
                    0 <= i < j < r.len() implies #[trigger] r[i].actor
                    != #[trigger] r[j].actor by {
                    assert(r[i].actor == base[i].actor && r[j].actor == base[j].actor);
                }
            },
        }
    }
}

/// Duplicate delivery is harmless: for every sequence of Follow, Undo(Follow)
/// and approval events, delivering each event twice in a row leaves the
/// store exactly as delivering each once.
pub proof fn lemma_duplicate_delivery_is_harmless(
    recs: Seq<FollowerView>,
    es: Seq<FollowEvent>,
    manual: bool,
)
    ensures
        apply_events(recs, duplicated(es), manual) == apply_events(recs, es, manual),
    decreases es.len(),
{
    if es.len() > 0 {
        let d = duplicated(es);
        let d1 = duplicated(es.drop_last()).push(es.last());
        assert(d.drop_last() == d1);
        assert(d1.drop_last() == duplicated(es.drop_last()));
        assert(d.last() == es.last() && d1.last() == es.last());
        lemma_duplicate_delivery_is_harmless(recs, es.drop_last(), manual);
        let base = apply_events(recs, es.drop_last(), manual);
        lemma_event_idempotent(base, es.last(), manual);
        assert(apply_events(recs, d1, manual) == apply_event(base, es.last(), manual));
        assert(apply_events(recs, d, manual) == apply_event(
            apply_events(recs, d1, manual),
            es.last(),
            manual,
        ));
    }
}

/// Under manual approval a Follow from a new actor leaves it out of the
/// approved followers until it is approved; without it the actor is approved
/// at once.
pub proof fn lemma_manual_approval_policy(
    recs: Seq<FollowerView>,
    actor: Seq<char>,
    inbox: Seq<char>,
    now: u64,
)
    requires
        find_follower(recs, actor) < 0,
    ensures
        approved_actors(follow_spec(recs, actor, inbox, now, true)) == approved_actors(recs),
        approved_actors(follow_spec(recs, actor, inbox, now, false)) == approved_actors(
            recs,
        ).push(actor),
        approved_actors(
            approve_spec(follow_spec(recs, actor, inbox, now, true), actor),
        ).contains(actor),
{
    let r1 = follow_spec(recs, actor, inbox, now, true);
    let r2 = follow_spec(recs, actor, inbox, now, false);
    assert(r1.drop_last() =~= recs);
    assert(r2.drop_last() =~= recs);
    let r3 = approve_spec(r1, actor);
    assert(find_follower(r1, actor) == recs.len());
    assert(r3.drop_last() =~= recs);
    assert(approved_actors(r3) == approved_actors(recs).push(actor));
    assert(approved_actors(r3).last() == actor);
}

/// The followers of the local actor, in the order they were first seen.
pub struct FollowerStore {
    pub records: Vec<FollowerRecord>,
}

impl View for FollowerStore {
    type V = Seq<FollowerView>;

    open spec fn view(&self) -> Seq<FollowerView> {
        self.records@.map_values(|r: FollowerRecord| r@)
    }
}

impl FollowerStore {
    pub fn new() -> (r: FollowerStore)
        ensures
            r@ == Seq::<FollowerView>::empty(),
    {
        let r = FollowerStore { records: Vec::new() };
        assert(r@ =~= Seq::<FollowerView>::empty());
        r
    }

    /// The index of the record of `actor`, if any.
    pub fn position(&self, actor: &String) -> (r: Option<usize>)
        ensures
            match r {
                Some(i) => i < self@.len() && i as int == find_follower(self@, actor@),
                None => find_follower(self@, actor@) < 0,
            },
    {
        let mut i: usize = self.records.len();
        assert(self@.subrange(0, i as int) =~= self@);
        while i > 0
            invariant
                i <= self.records@.len(),
                find_follower(self@, actor@) == find_follower(self@.subrange(0, i as int), actor@),
            decreases i,
        {
            let ghost sub = self@.subrange(0, i as int);
            assert(sub.drop_last() =~= self@.subrange(0, i - 1));
            if self.records[i - 1].actor == *actor {
                return Some(i - 1);
            }
            i = i - 1;
        }
        assert(self@.subrange(0, 0) =~= Seq::<FollowerView>::empty());
        None
    }

    /// Receives a Follow from `actor`, whose inbox is `inbox`.
    pub fn apply_follow(&mut self, actor: &String, inbox: &String, now: u64, manual: bool) -> (r:
        FollowResult)
        ensures
            final(self)@ == follow_spec(old(self)@, actor@, inbox@, now, manual),
            ({
                let i = find_follower(old(self)@, actor@);
                r == if i < 0 {
                    if manual {
                        FollowResult::NewlyPending
                    } else {
                        FollowResult::NewlyApproved
                    }
                } else {
                    match old(self)@[i].state {
                        FollowState::Pending => FollowResult::AlreadyPending,
                        FollowState::Approved => FollowResult::AlreadyApproved,
                        FollowState::Removed => FollowResult::AlreadyRemoved,
                    }
                }
            }),
    {
        proof {
            lemma_find_bounds(self@, actor@);
        }
        match self.position(actor) {
            Some(i) => match self.records[i].state {
                FollowState::Pending => FollowResult::AlreadyPending,
                FollowState::Approved => FollowResult::AlreadyApproved,
                FollowState::Removed => FollowResult::AlreadyRemoved,
            },
            None => {
                let state = if manual {
                    FollowState::Pending
                } else {
                    FollowState::Approved
                };
                let rec = FollowerRecord {
                    actor: actor.clone(),
                    inbox: inbox.clone(),
                    state,
                    first_seen: now,
                };
                self.records.push(rec);
                assert(self@ =~= follow_spec(old(self)@, actor@, inbox@, now, manual));
                if manual {
                    FollowResult::NewlyPending
                } else {
                    FollowResult::NewlyApproved
                }
            },
        }
    }

    /// Moves the record of `actor` to `to`, where it stands in `from`.
    fn transition(&mut self, actor: &String, from_removed: bool, to: FollowState) -> (r: bool)
        ensures
            ({
                let i = find_follower(old(self)@, actor@);
                let ok = i >= 0 && (if from_removed {
                    old(self)@[i].state != FollowState::Removed
                } else {
                    old(self)@[i].state == FollowState::Pending
                });
                &&& r == ok
                &&& final(self)@ == if ok {
                    old(self)@.update(i, FollowerView { state: to, ..old(self)@[i] })
                } else {
                    old(self)@
                }
            }),
    {
        proof {
            lemma_find_bounds(self@, actor@);
        }
        match self.position(actor) {
            Some(i) => {
                let st = self.records[i].state;
                let ok = if from_removed {
                    st != FollowState::Removed
                } else {
                    st == FollowState::Pending
                };
                if ok {
                    let mut rec = self.records.remove(i);
                    rec.state = to;
                    self.records.insert(i, rec);
                    assert(self@ =~= old(self)@.update(
                        i as int,
                        FollowerView { state: to, ..old(self)@[i as int] },
                    ));
                }
                ok
            },
            None => false,
        }
    }

    /// Receives an Undo(Follow) from `actor`; true when a Pending or Approved
    /// record was there to remove.
    pub fn apply_undo_follow(&mut self, actor: &String) -> (r: bool)
        ensures
            final(self)@ == undo_spec(old(self)@, actor@),
            r == (find_follower(old(self)@, actor@) >= 0 && old(self)@[find_follower(
                old(self)@,
                actor@,
            )].state != FollowState::Removed),
    {
        self.transition(actor, true, FollowState::Removed)
    }

    /// Approves a Pending follower; true when one was pending.
    pub fn approve(&mut self, actor: &String) -> (r: bool)
        ensures
            final(self)@ == approve_spec(old(self)@, actor@),
            r == (find_follower(old(self)@, actor@) >= 0 && old(self)@[find_follower(
                old(self)@,
                actor@,
            )].state == FollowState::Pending),
    {
        self.transition(actor, false, FollowState::Approved)
    }

    /// The actor URIs of the Approved followers, in insertion order.
    pub fn list_approved(&self) -> (r: Vec<String>)
        ensures
            r@.map_values(|s: String| s@) == approved_actors(self@),
    {
        let mut out: Vec<String> = Vec::new();
        let mut i: usize = 0;
        while i < self.records.len()
            invariant
                i <= self.records@.len(),
                out@.map_values(|s: String| s@) == approved_actors(self@.subrange(0, i as int)),
            decreases self.records@.len() - i,
        {
            let ghost sub = self@.subrange(0, i + 1);
            assert(sub.drop_last() =~= self@.subrange(0, i as int));
            if self.records[i].state == FollowState::Approved {
                out.push(self.records[i].actor.clone());
            }
            i = i + 1;
            assert(out@.map_values(|s: String| s@) =~= approved_actors(self@.subrange(0, i as int)));
        }
        assert(self@.subrange(0, i as int) =~= self@);
        out
    }
}

} // verus!
