use crate::json::Json;
use crate::message::{handshake_of, ServerMessageView};
use crate::realtime::{places, AnnouncementView, ReactionView, RealtimeManagerView};
use vstd::prelude::*;

verus! {

/// The places below `n` that a predicate keeps come in growing order, and
/// they are exactly the places below `n` at which the predicate holds.
proof fn lemma_kept_places(n: nat, keep: spec_fn(usize) -> bool)
    requires
        n <= usize::MAX,
    ensures
        forall|a: int, b: int|
            0 <= a < b < places(n).filter(keep).len() ==> places(n).filter(keep)[a] < places(
                n,
            ).filter(keep)[b],
        forall|i: usize| #[trigger] places(n).filter(keep).contains(i) <==> i < n && keep(i),
    decreases n,
{
    let kept = places(n).filter(keep);
    if n == 0 {
        assert(places(n) =~= Seq::<usize>::empty());
        assert(kept.len() <= places(n).len()) by {
            places(n).lemma_filter_len(keep);
        }
    } else {
        let m = (n - 1) as nat;
        let last = m as usize;
        let before = places(m).filter(keep);
        lemma_kept_places(m, keep);
        assert(places(n) =~= places(m).push(last));
        places(m).lemma_filter_push(last, keep);
        assert forall|i: usize| #[trigger] kept.contains(i) <==> i < n && keep(i) by {
            if keep(last) {
                assert(kept == before.push(last));
                if kept.contains(i) {
                    let k = choose|k: int| 0 <= k < kept.len() && kept[k] == i;
                    if k < before.len() {
                        assert(before[k] == i);
                        assert(before.contains(i));
                    }
                }
                if i < n && keep(i) {
                    if i == last {
                        assert(kept[kept.len() - 1] == i);
                    } else {
                        assert(before.contains(i));
                        let k = choose|k: int| 0 <= k < before.len() && before[k] == i;
                        assert(kept[k] == i);
                    }
                }
            } else {
                assert(kept == before);
            }
        }
        assert forall|a: int, b: int| 0 <= a < b < kept.len() implies kept[a] < kept[b] by {
            if keep(last) && b == kept.len() - 1 {
                assert(before[a] == kept[a]);
                assert(before.contains(kept[a]));
            }
        }
    }
}

/// There is a registration to post exactly when at least one topic is
/// subscribed and the client identifier is known; it then carries that
/// identifier and the full list of topics, in subscription order.
pub proof fn lemma_announcement_needs_topic_and_client<C>(m: RealtimeManagerView<C>)
    ensures
        m.announcement() is None <==> m.subscriptions.len() == 0 || m.client_id is None,
        m.announcement() matches Some(request) ==> m.client_id == Some(request.client_id)
            && request.subscriptions == m.topics() && request.subscriptions.len()
            == m.subscriptions.len(),
{
}

/// A handshake that arrives while topics are subscribed asks for one
/// registration, which carries the identifier of that handshake and every
/// topic, and for no dispatch. An identifier known from an earlier
/// handshake is replaced; the subscriptions stay as they are.
pub proof fn lemma_handshake_registers_every_topic<C>(
    m: RealtimeManagerView<C>,
    client_id: Seq<char>,
    payload: Seq<char>,
)
    requires
        m.subscriptions.len() > 0,
    ensures
        m.reaction(ServerMessageView::Handshake { client_id }, payload) == (ReactionView::Announce {
            request: Some(AnnouncementView { client_id, subscriptions: m.topics() }),
        }),
        m.after_message(ServerMessageView::Handshake { client_id }).client_id == Some(client_id),
        m.after_message(ServerMessageView::Handshake { client_id }).subscriptions == m.subscriptions,
{
}

/// A document that has the shape of a handshake is taken as one, whatever
/// else it holds.
pub proof fn lemma_handshake_comes_first(document: Json)
    requires
        handshake_of(document) is Some,
    ensures
        ServerMessageView::of_document(document) == (ServerMessageView::Handshake {
            client_id: handshake_of(document)->Some_0,
        }),
{
}

/// The payload of a record change is owed to every subscription on the
/// topic and to no other: the places named are exactly those of the
/// subscriptions on the topic, each named once, in subscription order.
pub proof fn lemma_dispatch_reaches_exactly_the_topic<C>(
    m: RealtimeManagerView<C>,
    topic: Seq<char>,
)
    requires
        m.subscriptions.len() <= usize::MAX,
    ensures
        m.on_topic(topic).no_duplicates(),
        forall|a: int, b: int|
            0 <= a < b < m.on_topic(topic).len() ==> m.on_topic(topic)[a] < m.on_topic(topic)[b],
        forall|i: usize| #[trigger]
            m.on_topic(topic).contains(i) <==> i < m.subscriptions.len() && m.subscriptions[i as int].topic
                == topic,
{
    lemma_kept_places(m.subscriptions.len(), m.is_on(topic));
    let owed = m.on_topic(topic);
    assert forall|a: int, b: int| 0 <= a < owed.len() && 0 <= b < owed.len() && a != b implies owed[a]
        != owed[b] by {
        if a < b {
            assert(owed[a] < owed[b]);
        } else {
            assert(owed[b] < owed[a]);
        }
    }
}

/// A message of neither known shape changes nothing and asks for nothing:
/// no callback is owed anything and no error comes of it.
pub proof fn lemma_unrecognized_is_dropped<C>(m: RealtimeManagerView<C>, payload: Seq<char>)
    ensures
        m.reaction(ServerMessageView::Unrecognized, payload) == ReactionView::Dropped,
        m.after_message(ServerMessageView::Unrecognized) == m,
{
}

} // verus!
