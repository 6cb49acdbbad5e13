use vstd::prelude::*;

verus! {

/// Where a query over foreign memory stands.
#[derive(Debug, Clone, Copy, PartialEq, Eq, Structural)]
pub enum Phase {
    /// Waiting for the foreign element count.
    Counting,
    /// Waiting for the foreign pointer; `count` elements are expected.
    Fetching { count: i32 },
    /// The foreign block is being copied and released.
    Releasing { count: i32 },
    /// The query has returned; nothing more may be done.
    Done,
}

/// What the foreign side answered.
#[derive(Debug, Clone, Copy, PartialEq, Eq, Structural)]
pub enum Event {
    /// The count entry point returned this count.
    Counted(i32),
    /// The get entry point returned a pointer, null or not.
    Fetched { is_null: bool },
    /// The block was copied and its free entry point was called.
    Released,
}

/// What the caller must do next.
#[derive(Debug, Clone, Copy, PartialEq, Eq, Structural)]
pub enum Action {
    /// Call the get entry point.
    Fetch,
    /// Copy `len` elements out of the block, then call the free entry point
    /// once with the pointer and `count`.
    CopyAndRelease { len: usize, count: i32 },
    /// Return an empty sequence.
    ReturnEmpty,
    /// Fail with `DataUnavailable` naming the get entry point.
    ReturnUnavailable,
    /// Return the conversion of the copied elements.
    ReturnDecoded,
    /// The event does not belong to this phase; do nothing.
    Ignore,
}

/// The protocol: count, fetch, copy and release once, return.
pub open spec fn next(phase: Phase, event: Event) -> (Phase, Action) {
    match (phase, event) {
        (Phase::Counting, Event::Counted(c)) => if c <= 0 {
            (Phase::Done, Action::ReturnEmpty)
        } else {
            (Phase::Fetching { count: c }, Action::Fetch)
        },
        (Phase::Fetching { count }, Event::Fetched { is_null }) => if is_null {
            (Phase::Done, Action::ReturnUnavailable)
        } else {
            (Phase::Releasing { count }, Action::CopyAndRelease { len: count as usize, count })
        },
        (Phase::Releasing { .. }, Event::Released) => (Phase::Done, Action::ReturnDecoded),
        _ => (phase, Action::Ignore),
    }
}

impl Phase {
    /// Start of a list-valued query, which first asks for a count.
    pub fn listing() -> (r: Phase)
        ensures
            r == Phase::Counting,
    {
        Phase::Counting
    }

    /// Start of a single-valued query: one element, fetched at once.
    pub fn single() -> (r: Phase)
        ensures
            r == (Phase::Fetching { count: 1 }),
    {
        Phase::Fetching { count: 1 }
    }
}

/// Advances a query by one foreign answer.
pub fn step(phase: Phase, event: Event) -> (r: (Phase, Action))
    ensures
        r == next(phase, event),
{
    match (phase, event) {
        (Phase::Counting, Event::Counted(c)) => if c <= 0 {
            (Phase::Done, Action::ReturnEmpty)
        } else {
            (Phase::Fetching { count: c }, Action::Fetch)
        },
        (Phase::Fetching { count }, Event::Fetched { is_null }) => if is_null {
            (Phase::Done, Action::ReturnUnavailable)
        } else {
            let len = count as usize;
            (Phase::Releasing { count }, Action::CopyAndRelease { len, count })
        },
        (Phase::Releasing { .. }, Event::Released) => (Phase::Done, Action::ReturnDecoded),
        _ => (phase, Action::Ignore),
    }
}

/// The actions a query takes from `phase` on the answers `events`.
pub open spec fn run(phase: Phase, events: Seq<Event>) -> Seq<Action>
    decreases events.len(),
{
    if events.len() == 0 {
        Seq::empty()
    } else {
        seq![next(phase, events[0]).1] + run(next(phase, events[0]).0, events.drop_first())
    }
}

/// How many release actions a sequence of actions holds.
pub open spec fn releases(actions: Seq<Action>) -> nat
    decreases actions.len(),
{
    if actions.len() == 0 {
        0
    } else {
        (if actions[0] is CopyAndRelease { 1nat } else { 0nat }) + releases(actions.drop_first())
    }
}

/// Whether an action ends the query.
pub open spec fn is_return(a: Action) -> bool {
    a is ReturnEmpty || a is ReturnUnavailable || a is ReturnDecoded
}

/// Whether a phase has not yet fetched anything.
pub open spec fn not_started(phase: Phase) -> bool {
    phase is Counting || phase is Fetching
}

proof fn lemma_run_len(phase: Phase, events: Seq<Event>)
    ensures
        run(phase, events).len() == events.len(),
    decreases events.len(),
{
    if events.len() > 0 {
        lemma_run_len(next(phase, events[0]).0, events.drop_first());
    }
}

proof fn lemma_done_ignores(events: Seq<Event>)
    ensures
        forall|i: int| 0 <= i < events.len() ==> #[trigger] run(Phase::Done, events)[i] == Action::Ignore,
    decreases events.len(),
{
    if events.len() > 0 {
        lemma_done_ignores(events.drop_first());
        lemma_run_len(Phase::Done, events.drop_first());
        assert forall|i: int| 0 <= i < events.len() implies #[trigger] run(Phase::Done, events)[i]
            == Action::Ignore by {
            if i > 0 {
                assert(run(Phase::Done, events)[i] == run(Phase::Done, events.drop_first())[i - 1]);
            }
        }
    }
}

proof fn lemma_releases_bounded(phase: Phase, events: Seq<Event>)
    ensures
        releases(run(phase, events)) <= (if not_started(phase) { 1nat } else { 0nat }),
    decreases events.len(),
{
    if events.len() > 0 {
        let acts = run(phase, events);
        lemma_releases_bounded(next(phase, events[0]).0, events.drop_first());
        assert(acts.drop_first() == run(next(phase, events[0]).0, events.drop_first()));
    }
}

proof fn lemma_returns_end(phase: Phase, events: Seq<Event>, i: int, j: int)
    requires
        0 <= i < j < events.len(),
        is_return(run(phase, events)[i]),
    ensures
        run(phase, events)[j] == Action::Ignore,
    decreases events.len(),
{
    let p = next(phase, events[0]).0;
    let rest = events.drop_first();
    lemma_run_len(p, rest);
    if i == 0 {
        lemma_done_ignores(rest);
        assert(run(phase, events)[j] == run(p, rest)[j - 1]);
    } else {
        assert(run(phase, events)[i] == run(p, rest)[i - 1]);
        assert(run(phase, events)[j] == run(p, rest)[j - 1]);
        lemma_returns_end(p, rest, i - 1, j - 1);
    }
}

proof fn lemma_decoded_after_release(phase: Phase, events: Seq<Event>, i: int)
    requires
        0 <= i < events.len(),
        run(phase, events)[i] is ReturnDecoded,
    ensures
        phase is Releasing || releases(run(phase, events).take(i)) == 1,
    decreases events.len(),
{
    let p = next(phase, events[0]).0;
    let rest = events.drop_first();
    let acts = run(phase, events);
    lemma_run_len(p, rest);
    if i > 0 {
        assert(acts[i] == run(p, rest)[i - 1]);
        lemma_decoded_after_release(p, rest, i - 1);
        assert(acts.take(i).drop_first() == run(p, rest).take(i - 1));
        if !(phase is Releasing) && p is Releasing {
            lemma_releases_bounded(phase, events);
            lemma_releases_bounded(phase, events.take(i));
            assert(events.take(i).drop_first() == rest.take(i - 1));
            lemma_take_run(phase, events, i);
        }
    }
}

proof fn lemma_take_run(phase: Phase, events: Seq<Event>, i: int)
    requires
        0 <= i <= events.len(),
    ensures
        run(phase, events).take(i) == run(phase, events.take(i)),
    decreases events.len(),
{
    lemma_run_len(phase, events);
    lemma_run_len(phase, events.take(i));
    if i > 0 {
        let p = next(phase, events[0]).0;
        lemma_take_run(p, events.drop_first(), i - 1);
        assert(events.take(i).drop_first() == events.drop_first().take(i - 1));
        assert(run(phase, events).take(i) =~= run(phase, events.take(i)));
    } else {
        assert(run(phase, events).take(i) =~= run(phase, events.take(i)));
    }
}

/// A count of zero or less ends a list query at once with an empty result;
/// whatever the foreign side answers later, nothing is fetched or released.
pub proof fn law_empty_count_releases_nothing(count: i32, later: Seq<Event>)
    requires
        count <= 0,
    ensures
        run(Phase::Counting, seq![Event::Counted(count)] + later)[0] == Action::ReturnEmpty,
        forall|i: int|
            1 <= i <= later.len() ==> #[trigger] run(
                Phase::Counting,
                seq![Event::Counted(count)] + later,
            )[i] == Action::Ignore,
        releases(run(Phase::Counting, seq![Event::Counted(count)] + later)) == 0,
{
    let events = seq![Event::Counted(count)] + later;
    assert(events.drop_first() == later);
    lemma_done_ignores(later);
    lemma_releases_bounded(Phase::Done, later);
    lemma_run_len(Phase::Done, later);
    assert forall|i: int| 1 <= i <= later.len() implies #[trigger] run(Phase::Counting, events)[i]
        == Action::Ignore by {
        assert(run(Phase::Counting, events)[i] == run(Phase::Done, later)[i - 1]);
    }
    assert(run(Phase::Counting, events).drop_first() == run(Phase::Done, later));
}

/// A null pointer after a positive count fails the query as unavailable;
/// whatever the foreign side answers later, nothing is released.
pub proof fn law_null_fetch_releases_nothing(count: i32, later: Seq<Event>)
    requires
        count > 0,
    ensures
        run(Phase::Counting, seq![Event::Counted(count), Event::Fetched { is_null: true }] + later)
            == seq![Action::Fetch, Action::ReturnUnavailable] + run(Phase::Done, later),
        releases(
            run(Phase::Counting, seq![Event::Counted(count), Event::Fetched { is_null: true }] + later),
        ) == 0,
{
    let events = seq![Event::Counted(count), Event::Fetched { is_null: true }] + later;
    let fetching = Phase::Fetching { count };
    assert(events.drop_first().drop_first() == later);
    assert(run(fetching, events.drop_first()) == seq![Action::ReturnUnavailable] + run(
        Phase::Done,
        later,
    ));
    assert(run(Phase::Counting, events) =~= seq![Action::Fetch, Action::ReturnUnavailable] + run(
        Phase::Done,
        later,
    ));
    lemma_releases_bounded(Phase::Done, later);
    let acts = run(Phase::Counting, events);
    assert(acts.drop_first().drop_first() == run(Phase::Done, later));
    assert(releases(acts.drop_first()) == releases(acts.drop_first().drop_first()));
}

/// A block fetched after a positive count is copied and released exactly
/// once, with the same count, before the decoded result is returned; this
/// holds whether or not its contents later decode.
pub proof fn law_fetched_block_released_once(count: i32, later: Seq<Event>)
    requires
        count > 0,
    ensures
        run(
            Phase::Counting,
            seq![Event::Counted(count), Event::Fetched { is_null: false }, Event::Released] + later,
        ) == seq![
            Action::Fetch,
            Action::CopyAndRelease { len: count as usize, count },
            Action::ReturnDecoded,
        ] + run(Phase::Done, later),
        releases(
            run(
                Phase::Counting,
                seq![Event::Counted(count), Event::Fetched { is_null: false }, Event::Released]
                    + later,
            ),
        ) == 1,
{
    let events = seq![Event::Counted(count), Event::Fetched { is_null: false }, Event::Released]
        + later;
    let e1 = events.drop_first();
    let e2 = e1.drop_first();
    assert(e2.drop_first() == later);
    let tail = run(Phase::Done, later);
    assert(run(Phase::Releasing { count }, e2) == seq![Action::ReturnDecoded] + tail);
    assert(run(Phase::Fetching { count }, e1) =~= seq![
        Action::CopyAndRelease { len: count as usize, count },
        Action::ReturnDecoded,
    ] + tail);
    let acts = run(Phase::Counting, events);
    assert(acts =~= seq![
        Action::Fetch,
        Action::CopyAndRelease { len: count as usize, count },
        Action::ReturnDecoded,
    ] + tail);
    lemma_releases_bounded(Phase::Done, later);
    assert(acts.drop_first().drop_first().drop_first() == tail);
    assert(releases(acts.drop_first().drop_first()) == 0);
    assert(releases(acts.drop_first()) == 1);
}

/// Whatever the foreign side answers, a query releases foreign memory at most
/// once, does nothing after it returns, and returns decoded data only after
/// one release; so two queries never release the same block twice.
pub proof fn law_release_at_most_once(start: Phase, events: Seq<Event>)
    requires
        not_started(start),
    ensures
        releases(run(start, events)) <= 1,
        forall|i: int, j: int|
            0 <= i < j < events.len() && is_return(#[trigger] run(start, events)[i]) ==> #[trigger] run(
                start,
                events,
            )[j] == Action::Ignore,
        forall|i: int|
            0 <= i < events.len() && #[trigger] run(start, events)[i] is ReturnDecoded ==> releases(
                run(start, events).take(i),
            ) == 1,
{
    lemma_releases_bounded(start, events);
    assert forall|i: int, j: int|
        0 <= i < j < events.len() && is_return(#[trigger] run(start, events)[i]) implies #[trigger] run(
        start,
        events,
    )[j] == Action::Ignore by {
        lemma_returns_end(start, events, i, j);
    }
    assert forall|i: int|
        0 <= i < events.len() && #[trigger] run(start, events)[i] is ReturnDecoded implies releases(
        run(start, events).take(i),
    ) == 1 by {
        lemma_decoded_after_release(start, events, i);
    }
}

} // verus!
