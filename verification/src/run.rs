//! Whole runs of the response stream, and what holds of every run.

use vstd::prelude::*;
use crate::accumulator::{
    emitted, final_payload, initial_state, next_state, update_payload, AccumulatorView,
    IncomingView, OutboundView,
};
use crate::stream::EventView;

verus! {

/// The fragments of a sequence, joined in order.
pub open spec fn joined(fragments: Seq<Seq<char>>) -> Seq<char>
    decreases fragments.len(),
{
    if fragments.len() == 0 {
        Seq::empty()
    } else {
        joined(fragments.drop_last()) + fragments.last()
    }
}

/// The text deltas that carry the given fragments.
pub open spec fn deltas(fragments: Seq<Seq<char>>) -> Seq<IncomingView> {
    fragments.map_values(|f: Seq<char>| IncomingView::Event(EventView::Text(f)))
}

/// The state of a fresh response stream after it has taken `items`.
pub open spec fn state_after(items: Seq<IncomingView>) -> AccumulatorView
    decreases items.len(),
{
    if items.len() == 0 {
        initial_state()
    } else {
        next_state(state_after(items.drop_last()), items.last())
    }
}

/// What a fresh response stream does for the item at position `k` of
/// `items`, having taken those before it.
pub open spec fn outbound_at(items: Seq<IncomingView>, k: int) -> OutboundView
    recommends
        0 <= k < items.len(),
{
    emitted(state_after(items.take(k)), items[k])
}

/// Whether every item before position `k` is a text delta.
pub open spec fn only_deltas_before(items: Seq<IncomingView>, k: int) -> bool {
    forall|j: int| 0 <= j < k ==> (#[trigger] items[j]).is_delta()
}

/// The stream is open after `k` items exactly when all of them were text
/// deltas.
pub proof fn lemma_open_while_deltas(items: Seq<IncomingView>, k: int)
    requires
        0 <= k <= items.len(),
    ensures
        state_after(items.take(k)).open <==> only_deltas_before(items, k),
    decreases k,
{
    if k > 0 {
        lemma_open_while_deltas(items, k - 1);
        assert(items.take(k).drop_last() =~= items.take(k - 1));
        assert(items.take(k).last() == items[k - 1]);
        if only_deltas_before(items, k) {
            assert(items[k - 1].is_delta());
        }
    } else {
        assert(items.take(0) =~= Seq::<IncomingView>::empty());
    }
}

/// After the first `k` of a sequence of text deltas the accumulator holds
/// their fragments, joined in order, and the stream is open.
pub proof fn lemma_deltas_accumulate(
    items: Seq<IncomingView>,
    fragments: Seq<Seq<char>>,
    k: int,
)
    requires
        0 <= k <= fragments.len() <= items.len(),
        forall|i: int|
            0 <= i < fragments.len() ==> #[trigger] items[i] == IncomingView::Event(
                EventView::Text(fragments[i]),
            ),
    ensures
        state_after(items.take(k)) == (AccumulatorView {
            text: joined(fragments.take(k)),
            open: true,
        }),
    decreases k,
{
    if k > 0 {
        lemma_deltas_accumulate(items, fragments, k - 1);
        assert(items.take(k).drop_last() =~= items.take(k - 1));
        assert(items.take(k).last() == items[k - 1]);
        assert(fragments.take(k).drop_last() =~= fragments.take(k - 1));
        assert(fragments.take(k).last() == fragments[k - 1]);
    } else {
        assert(items.take(0) =~= Seq::<IncomingView>::empty());
        assert(fragments.take(0) =~= Seq::<Seq<char>>::empty());
    }
}

/// For a sequence of text deltas, the event that is emitted for the delta at
/// position `k` carries the rendering of all fragments up to and including
/// it, joined in order.
pub proof fn lemma_update_renders_prefix(
    items: Seq<IncomingView>,
    fragments: Seq<Seq<char>>,
    k: int,
)
    requires
        0 <= k < fragments.len() <= items.len(),
        forall|i: int|
            0 <= i < fragments.len() ==> #[trigger] items[i] == IncomingView::Event(
                EventView::Text(fragments[i]),
            ),
    ensures
        state_after(items.take(k + 1)).text == joined(fragments.take(k + 1)),
        outbound_at(items, k) == OutboundView::Update(
            update_payload(joined(fragments.take(k + 1))),
        ),
{
    lemma_deltas_accumulate(items, fragments, k);
    lemma_deltas_accumulate(items, fragments, k + 1);
    assert(fragments.take(k + 1).drop_last() =~= fragments.take(k));
    assert(fragments.take(k + 1).last() == fragments[k]);
}

/// When the terminal event follows a sequence of text deltas, the text that
/// is persisted is the fragments of all of them, joined in order, and the
/// closing update carries the rendering of that text.
pub proof fn lemma_terminal_persists_joined(fragments: Seq<Seq<char>>, marker: Seq<char>)
    ensures
        outbound_at(
            deltas(fragments).push(IncomingView::Event(EventView::End(marker))),
            fragments.len() as int,
        ) == (OutboundView::Final {
            data: final_payload(marker, joined(fragments)),
            persist: joined(fragments),
        }),
{
    let items = deltas(fragments).push(IncomingView::Event(EventView::End(marker)));
    lemma_deltas_accumulate(items, fragments, fragments.len() as int);
    assert(fragments.take(fragments.len() as int) =~= fragments);
}

/// Text is persisted for the item at position `k` exactly when that item is
/// the terminal event and every item before it is a text delta.
pub proof fn lemma_persists_iff_clean_terminal(items: Seq<IncomingView>, k: int)
    requires
        0 <= k < items.len(),
    ensures
        outbound_at(items, k) is Final <==> items[k].is_terminal() && only_deltas_before(
            items,
            k,
        ),
{
    lemma_open_while_deltas(items, k);
}

/// Text is persisted at most once in a run.
pub proof fn lemma_persists_at_most_once(items: Seq<IncomingView>, j: int, k: int)
    requires
        0 <= j < items.len(),
        0 <= k < items.len(),
        outbound_at(items, j) is Final,
        outbound_at(items, k) is Final,
    ensures
        j == k,
{
    lemma_persists_iff_clean_terminal(items, j);
    lemma_persists_iff_clean_terminal(items, k);
    if j < k {
        assert(items[j].is_delta());
    } else if k < j {
        assert(items[k].is_delta());
    }
}

/// A run in which a failure arrives before any terminal event persists
/// nothing.
pub proof fn lemma_failure_before_terminal_persists_nothing(
    items: Seq<IncomingView>,
    failure: int,
    k: int,
)
    requires
        0 <= failure < items.len(),
        items[failure] is Failure,
        forall|j: int| 0 <= j < failure ==> !(#[trigger] items[j]).is_terminal(),
        0 <= k < items.len(),
    ensures
        !(outbound_at(items, k) is Final),
{
    lemma_persists_iff_clean_terminal(items, k);
    if outbound_at(items, k) is Final {
        if failure < k {
            assert(items[failure].is_delta());
        } else if k < failure {
            assert(!items[k].is_terminal());
        }
    }
}

/// A run that never receives the terminal event persists nothing: a stream
/// whose consumer went away after some deltas has written nothing.
pub proof fn lemma_no_terminal_persists_nothing(items: Seq<IncomingView>, k: int)
    requires
        forall|j: int| 0 <= j < items.len() ==> !(#[trigger] items[j]).is_terminal(),
        0 <= k < items.len(),
    ensures
        !(outbound_at(items, k) is Final),
{
    lemma_persists_iff_clean_terminal(items, k);
}

/// The closing update carries exactly the HTML that rendering the persisted
/// text gives: rendering the stored text again reproduces it.
pub proof fn lemma_persisted_text_renders_alike(items: Seq<IncomingView>, k: int)
    requires
        0 <= k < items.len(),
        outbound_at(items, k) is Final,
    ensures
        items[k] matches IncomingView::Event(EventView::End(marker)) && outbound_at(items, k)
            ->data == final_payload(marker, outbound_at(items, k)->persist),
{
    lemma_persists_iff_clean_terminal(items, k);
    lemma_open_while_deltas(items, k);
}

} // verus!
