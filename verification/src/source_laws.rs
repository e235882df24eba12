use crate::error::EventSourceErrorView;
use crate::event::{ReadyState, TransportEventView};
use crate::source::{DeliveryView, EventSourceView};
use vstd::prelude::*;

verus! {

/// One call on an event source, as the laws below see it.
pub enum Op<C> {
    Subscribe { event_type: Seq<char>, callback: C, attached: Result<(), Seq<char>> },
    Unsubscribe { id: usize },
    Close,
    CloseAndNotify,
    Handle { event: TransportEventView },
}

impl DeliveryView {
    /// The listeners named in a delivery.
    pub open spec fn recipients(self) -> Seq<usize> {
        match self {
            DeliveryView::Nothing => Seq::empty(),
            DeliveryView::Message { recipients, .. } => recipients,
            DeliveryView::Terminal { recipients } => recipients,
        }
    }
}

impl<C> EventSourceView<C> {
    /// The state in which a call leaves the source.
    pub open spec fn apply(self, op: Op<C>) -> Self {
        match op {
            Op::Subscribe { event_type, callback, attached } => self.after_subscribe(
                event_type,
                callback,
                attached,
            ),
            Op::Unsubscribe { id } => self.after_unsubscribe(id),
            Op::Close => self.after_close(),
            Op::CloseAndNotify => self.after_close(),
            Op::Handle { event } => self.after_event(event),
        }
    }

    /// The state after a series of calls, made in order.
    pub open spec fn run(self, ops: Seq<Op<C>>) -> Self
        decreases ops.len(),
    {
        if ops.len() == 0 {
            self
        } else {
            self.run(ops.drop_last()).apply(ops.last())
        }
    }

    /// The id that a call hands out: that of a successful `subscribe`.
    pub open spec fn issued(self, op: Op<C>) -> Option<usize> {
        match op {
            Op::Subscribe { attached, .. } => match self.subscribe_result(attached) {
                Ok(id) => Some(id),
                Err(_) => None,
            },
            _ => None,
        }
    }

    /// The listeners to whom a call owes an event or the terminal signal.
    pub open spec fn owed(self, op: Op<C>) -> Seq<usize> {
        match op {
            Op::CloseAndNotify => self.terminal_recipients(),
            Op::Handle { event } => self.delivery(event).recipients(),
            _ => Seq::empty(),
        }
    }
}

/// Removing a listener keeps the others in their order.
proof fn lemma_unsubscribe_keeps_others<C>(s: EventSourceView<C>, id: usize)
    requires
        s.wf(),
    ensures
        s.after_unsubscribe(id).wf(),
        !s.after_unsubscribe(id).registered(id),
        forall|other: usize|
            s.after_unsubscribe(id).registered(other) ==> #[trigger] s.registered(other),
{
    let t = s.after_unsubscribe(id);
    if s.registered(id) {
        let w = choose|i: int| 0 <= i < s.listeners.len() && (#[trigger] s.listeners[i]).id == id;
        assert(s.first_at(id, w));
        let p = s.position(id);
        assert forall|i: int| 0 <= i < t.listeners.len() implies #[trigger] t.listeners[i]
            == s.listeners[if i < p {
            i
        } else {
            i + 1
        }] by {}
        assert forall|other: usize| t.registered(other) implies #[trigger] s.registered(other) by {
            let i = choose|i: int| 0 <= i < t.listeners.len() && (#[trigger] t.listeners[i]).id == other;
            let k = if i < p {
                i
            } else {
                i + 1
            };
            assert(s.listeners[k].id == other);
        }
        if t.registered(id) {
            let i = choose|i: int| 0 <= i < t.listeners.len() && (#[trigger] t.listeners[i]).id == id;
            let k = if i < p {
                i
            } else {
                i + 1
            };
            assert(s.listeners[k].id == id);
            assert(s.listeners[p].id == id);
            assert(k != p);
        }
    }
}

/// Every call keeps the table well formed and the id counter from falling.
pub proof fn lemma_apply_keeps_wf<C>(s: EventSourceView<C>, op: Op<C>)
    requires
        s.wf(),
    ensures
        s.apply(op).wf(),
        s.apply(op).next_id >= s.next_id,
        s.issued(op) matches Some(id) ==> id == s.next_id && s.apply(op).next_id == id + 1,
{
    match op {
        Op::Unsubscribe { id } => {
            lemma_unsubscribe_keeps_others(s, id);
        },
        _ => {},
    }
}

/// Every series of calls keeps the table well formed and the id counter from
/// falling.
pub proof fn lemma_run_keeps_wf<C>(s: EventSourceView<C>, ops: Seq<Op<C>>)
    requires
        s.wf(),
    ensures
        s.run(ops).wf(),
        s.run(ops).next_id >= s.next_id,
    decreases ops.len(),
{
    if ops.len() > 0 {
        lemma_run_keeps_wf(s, ops.drop_last());
        lemma_apply_keeps_wf(s.run(ops.drop_last()), ops.last());
    }
}

/// Running a series of calls up to `j` is running it up to `i` and then the
/// calls from `i` to `j`.
proof fn lemma_run_split<C>(s: EventSourceView<C>, ops: Seq<Op<C>>, i: int, j: int)
    requires
        0 <= i <= j <= ops.len(),
    ensures
        s.run(ops.take(j)) == s.run(ops.take(i)).run(ops.subrange(i, j)),
    decreases j - i,
{
    if i == j {
        assert(ops.subrange(i, j) =~= Seq::empty());
    } else {
        lemma_run_split(s, ops, i, j - 1);
        assert(ops.take(j).drop_last() =~= ops.take(j - 1));
        assert(ops.subrange(i, j).drop_last() =~= ops.subrange(i, j - 1));
        assert(ops.take(j).last() == ops.subrange(i, j).last());
    }
}

/// The ids that one event source hands out grow strictly from each
/// successful `subscribe` to the next, whatever other calls are made in
/// between: of any two calls in a series that each hand out an id, the
/// later one hands out the greater.
pub proof fn lemma_ids_strictly_increase<C>(
    s: EventSourceView<C>,
    ops: Seq<Op<C>>,
    i: int,
    j: int,
)
    requires
        s.wf(),
        0 <= i < j < ops.len(),
        s.run(ops.take(i)).issued(ops[i]) is Some,
        s.run(ops.take(j)).issued(ops[j]) is Some,
    ensures
        s.run(ops.take(i)).issued(ops[i])->Some_0 < s.run(ops.take(j)).issued(ops[j])->Some_0,
{
    let before_i = s.run(ops.take(i));
    let after_i = s.run(ops.take(i + 1));
    let before_j = s.run(ops.take(j));
    lemma_run_keeps_wf(s, ops.take(i));
    assert(ops.take(i + 1).drop_last() =~= ops.take(i));
    assert(ops.take(i + 1).last() == ops[i]);
    assert(after_i == before_i.apply(ops[i]));
    lemma_apply_keeps_wf(before_i, ops[i]);
    lemma_run_split(s, ops, i + 1, j);
    lemma_run_keeps_wf(after_i, ops.subrange(i + 1, j));
    lemma_apply_keeps_wf(before_j, ops[j]);
}

/// An id that was never handed out is not found.
pub proof fn lemma_unissued_id_not_found<C>(s: EventSourceView<C>, id: usize)
    requires
        s.wf(),
        id >= s.next_id,
    ensures
        s.unsubscribe_result(id) == Err::<(), EventSourceErrorView>(EventSourceErrorView::NotFound),
{
}

impl<C> EventSourceView<C> {
    /// Whether no call of a series, made in order from this state, hands out
    /// `id`.
    pub open spec fn never_issues(self, ops: Seq<Op<C>>, id: usize) -> bool {
        forall|k: int|
            0 <= k < ops.len() ==> (#[trigger] self.run(ops.take(k))).issued(ops[k]) != Some(id)
    }
}

/// An id that the source has handed out is never handed out again.
pub proof fn lemma_id_is_never_issued_again<C>(s: EventSourceView<C>, ops: Seq<Op<C>>, id: usize)
    requires
        s.wf(),
        id < s.next_id,
    ensures
        s.never_issues(ops, id),
{
    assert forall|k: int| 0 <= k < ops.len() implies (#[trigger] s.run(ops.take(k))).issued(ops[k])
        != Some(id) by {
        lemma_run_keeps_wf(s, ops.take(k));
        lemma_apply_keeps_wf(s.run(ops.take(k)), ops[k]);
    }
}

/// An id under which nothing is registered stays unregistered through
/// every series of calls that does not hand it out.
proof fn lemma_gone_stays_gone<C>(s: EventSourceView<C>, id: usize, ops: Seq<Op<C>>)
    requires
        s.wf(),
        !s.registered(id),
        s.never_issues(ops, id),
    ensures
        !s.run(ops).registered(id),
        s.run(ops).wf(),
    decreases ops.len(),
{
    if ops.len() > 0 {
        let earlier = ops.drop_last();
        let before = s.run(earlier);
        assert forall|k: int| 0 <= k < earlier.len() implies (#[trigger] s.run(earlier.take(k))).issued(
            earlier[k],
        ) != Some(id) by {
            assert(earlier.take(k) =~= ops.take(k));
            assert(s.run(ops.take(k)).issued(ops[k]) != Some(id));
        }
        lemma_gone_stays_gone(s, id, earlier);
        lemma_apply_keeps_wf(before, ops.last());
        let after = before.apply(ops.last());
        match ops.last() {
            Op::Subscribe { event_type, callback, attached } => {
                assert(ops.take(ops.len() - 1) =~= earlier);
                assert(s.run(ops.take(ops.len() - 1)).issued(ops[ops.len() - 1]) != Some(id));
                if after.registered(id) {
                    let k = choose|k: int|
                        0 <= k < after.listeners.len() && (#[trigger] after.listeners[k]).id == id;
                    if k < before.listeners.len() {
                        assert(before.listeners[k].id == id);
                    }
                }
            },
            Op::Unsubscribe { id: other } => {
                lemma_unsubscribe_keeps_others(before, other);
            },
            _ => {},
        }
    }
}

/// Once `unsubscribe` has been called with an id, every later `unsubscribe`
/// with that id reports it as not found, whatever calls are made in
/// between, as long as none of them hands that id out. By
/// `lemma_id_is_never_issued_again` none does where the source had handed
/// the id out before the first call.
pub proof fn lemma_second_unsubscribe_not_found<C>(
    s: EventSourceView<C>,
    id: usize,
    ops: Seq<Op<C>>,
)
    requires
        s.wf(),
        s.after_unsubscribe(id).never_issues(ops, id),
    ensures
        s.after_unsubscribe(id).run(ops).unsubscribe_result(id) == Err::<(), EventSourceErrorView>(
            EventSourceErrorView::NotFound,
        ),
{
    lemma_unsubscribe_keeps_others(s, id);
    lemma_gone_stays_gone(s.after_unsubscribe(id), id, ops);
}

/// When an open or connecting source is told to close and notify, the
/// listeners owed the terminal signal are exactly those registered at that
/// moment, each named once.
pub proof fn lemma_terminal_signal_exactly_once<C>(s: EventSourceView<C>)
    requires
        s.wf(),
        !(s.state is Closed),
    ensures
        s.owed(Op::CloseAndNotify).no_duplicates(),
        forall|id: usize| s.registered(id) <==> #[trigger] s.owed(Op::CloseAndNotify).contains(id),
{
    let owed = s.owed(Op::CloseAndNotify);
    assert(owed.len() == s.listeners.len());
    assert forall|i: int, j: int| 0 <= i < owed.len() && 0 <= j < owed.len() && i != j implies owed[i]
        != owed[j] by {
        assert(owed[i] == s.listeners[i].id);
        assert(owed[j] == s.listeners[j].id);
    }
    assert forall|id: usize| s.registered(id) <==> #[trigger] owed.contains(id) by {
        if s.registered(id) {
            let i = choose|i: int| 0 <= i < s.listeners.len() && (#[trigger] s.listeners[i]).id == id;
            assert(owed[i] == id);
        }
        if owed.contains(id) {
            let i = choose|i: int| 0 <= i < owed.len() && owed[i] == id;
            assert(s.listeners[i].id == id);
        }
    }
}

/// How far a connection phase is along the way from connecting to closed.
pub open spec fn phase_rank(state: ReadyState) -> int {
    match state {
        ReadyState::Connecting => 0,
        ReadyState::Open => 1,
        ReadyState::Closed => 2,
    }
}

/// The connection phase only ever advances, from connecting to open to
/// closed: no series of calls takes it back.
pub proof fn lemma_phase_only_advances<C>(s: EventSourceView<C>, ops: Seq<Op<C>>)
    ensures
        phase_rank(s.state) <= phase_rank(s.run(ops).state),
    decreases ops.len(),
{
    if ops.len() > 0 {
        lemma_phase_only_advances(s, ops.drop_last());
    }
}

/// A closed source stays closed through every series of calls.
pub proof fn lemma_closed_is_final<C>(s: EventSourceView<C>, ops: Seq<Op<C>>)
    requires
        s.state is Closed,
    ensures
        s.run(ops).state is Closed,
    decreases ops.len(),
{
    if ops.len() > 0 {
        lemma_closed_is_final(s, ops.drop_last());
    }
}

/// After either kind of close no listener is owed anything any more:
/// whatever calls follow, none of them names a listener.
pub proof fn lemma_nothing_owed_after_close<C>(s: EventSourceView<C>, ops: Seq<Op<C>>, op: Op<C>)
    ensures
        s.after_close().run(ops).owed(op) == Seq::<usize>::empty(),
{
    lemma_closed_is_final(s.after_close(), ops);
}

} // verus!
