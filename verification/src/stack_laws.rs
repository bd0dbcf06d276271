//! What holds of every stack of layers: who gets an event, who does not,
//! and what a sweep leaves.

use vstd::prelude::*;
use crate::component::{Component, EventComponent, Reaction, TerminalEvent};
use crate::layer::{Layer, delivery, receptive, swept};
use crate::model::DbView;

verus! {

/// Whether the layer stops an event that is offered to it: it is receptive
/// and either modal or a consumer of the event.
pub open spec fn stops<L: Layer>(v: L::V, event: TerminalEvent, db: DbView) -> bool {
    receptive::<L>(v) && (L::modal(v) || L::input_reaction(v, event, db).consumed)
}

/// The index of the topmost of the lowest `n` layers that stops the event,
/// or -1 where none of them does.
pub open spec fn taker<L: Layer>(layers: Seq<L::V>, n: int, event: TerminalEvent, db: DbView) -> int
    decreases n,
{
    if n <= 0 {
        -1
    } else if stops::<L>(layers[n - 1], event, db) {
        n - 1
    } else {
        taker::<L>(layers, n - 1, event, db)
    }
}

/// Whether the layer at `i` is offered an event that goes to the lowest
/// `n` layers: it is receptive and no layer above it stops the event.
pub open spec fn visited<L: Layer>(layers: Seq<L::V>, n: int, i: int, event: TerminalEvent, db: DbView) -> bool {
    &&& 0 <= i < n
    &&& taker::<L>(layers, n, event, db) <= i
    &&& receptive::<L>(layers[i])
}

/// The taker is -1 or the index of a layer that stops the event, and no
/// layer above it stops the event.
pub proof fn lemma_taker<L: Layer>(layers: Seq<L::V>, n: int, event: TerminalEvent, db: DbView)
    requires
        0 <= n <= layers.len(),
    ensures
        -1 <= taker::<L>(layers, n, event, db) < n,
        taker::<L>(layers, n, event, db) >= 0 ==> stops::<L>(layers[taker::<L>(layers, n, event, db)], event, db),
        forall|i: int| taker::<L>(layers, n, event, db) < i < n ==> !stops::<L>(#[trigger] layers[i], event, db),
    decreases n,
{
    if n > 0 && !stops::<L>(layers[n - 1], event, db) {
        lemma_taker::<L>(layers, n - 1, event, db);
    }
}

/// Delivery to the lowest `n` layers looks at those layers only, and
/// leaves the others as they are.
pub proof fn lemma_delivery_frame<L: Layer>(
    a: Seq<L::V>,
    b: Seq<L::V>,
    n: int,
    event: TerminalEvent,
    db: DbView,
)
    requires
        0 <= n <= a.len(),
        n <= b.len(),
        forall|i: int| 0 <= i < n ==> a[i] == b[i],
    ensures
        delivery::<L>(a, n, event, db).consumed == delivery::<L>(b, n, event, db).consumed,
        delivery::<L>(a, n, event, db).emitted == delivery::<L>(b, n, event, db).emitted,
        delivery::<L>(a, n, event, db).state.len() == a.len(),
        forall|i: int| 0 <= i < n ==> delivery::<L>(a, n, event, db).state[i] == delivery::<L>(b, n, event, db).state[i],
        forall|i: int| n <= i < a.len() ==> delivery::<L>(a, n, event, db).state[i] == a[i],
    decreases n,
{
    if n > 0 {
        assert(a[n - 1] == b[n - 1]);
        if !receptive::<L>(a[n - 1]) {
            lemma_delivery_frame::<L>(a, b, n - 1, event, db);
            lemma_delivery_frame::<L>(b, a, n - 1, event, db);
            let lower_a = delivery::<L>(a, n - 1, event, db).state;
            let lower_b = delivery::<L>(b, n - 1, event, db).state;
            assert forall|i: int| 0 <= i < n implies delivery::<L>(a, n, event, db).state[i] == delivery::<L>(
                b,
                n,
                event,
                db,
            ).state[i] by {
                if i == n - 1 {
                    assert(lower_a[i] == a[i]);
                    assert(lower_b[i] == b[i]);
                } else {
                    assert(lower_a[i] == lower_b[i]);
                }
            }
        } else {
            let answer = L::input_reaction(a[n - 1], event, db);
            let after_a = a.update(n - 1, answer.state);
            let after_b = b.update(n - 1, answer.state);
            if !(L::modal(a[n - 1]) || answer.consumed) {
                assert forall|i: int| 0 <= i < n - 1 implies after_a[i] == after_b[i] by {
                    assert(a[i] == b[i]);
                }
                lemma_delivery_frame::<L>(after_a, after_b, n - 1, event, db);
                lemma_delivery_frame::<L>(after_b, after_a, n - 1, event, db);
                assert(delivery::<L>(a, n, event, db).state == delivery::<L>(after_a, n - 1, event, db).state);
                assert(delivery::<L>(b, n, event, db).state == delivery::<L>(after_b, n - 1, event, db).state);
                assert forall|i: int| n <= i < a.len() implies delivery::<L>(a, n, event, db).state[i] == a[i] by {
                    assert(after_a[i] == a[i]);
                }
                let lower_a = delivery::<L>(after_a, n - 1, event, db).state;
                let lower_b = delivery::<L>(after_b, n - 1, event, db).state;
                assert forall|i: int| 0 <= i < n implies delivery::<L>(a, n, event, db).state[i] == delivery::<L>(
                    b,
                    n,
                    event,
                    db,
                ).state[i] by {
                    if i == n - 1 {
                        assert(lower_a[i] == after_a[i]);
                        assert(lower_b[i] == after_b[i]);
                    } else {
                        assert(lower_a[i] == lower_b[i]);
                    }
                }
            } else {
                assert(delivery::<L>(a, n, event, db).state == after_a);
                assert(delivery::<L>(b, n, event, db).state == after_b);
                assert forall|i: int| 0 <= i < n implies delivery::<L>(a, n, event, db).state[i] == delivery::<L>(
                    b,
                    n,
                    event,
                    db,
                ).state[i] by {
                    assert(a[i] == b[i]);
                }
            }
        }
    }
}

/// What an event does to a stack, layer by layer: a layer that is offered
/// the event moves to the state of its own answer, and every other layer
/// stays as it is. The event is consumed if and only if a layer stops it
/// and that layer's own handler consumes it.
pub proof fn lemma_delivery_by_layer<L: Layer>(layers: Seq<L::V>, n: int, event: TerminalEvent, db: DbView)
    requires
        0 <= n <= layers.len(),
    ensures
        delivery::<L>(layers, n, event, db).state.len() == layers.len(),
        forall|i: int|
            0 <= i < layers.len() ==> #[trigger] delivery::<L>(layers, n, event, db).state[i] == if visited::<L>(
                layers,
                n,
                i,
                event,
                db,
            ) {
                L::input_reaction(layers[i], event, db).state
            } else {
                layers[i]
            },
        delivery::<L>(layers, n, event, db).consumed == (taker::<L>(layers, n, event, db) >= 0 && L::input_reaction(
            layers[taker::<L>(layers, n, event, db)],
            event,
            db,
        ).consumed),
    decreases n,
{
    lemma_taker::<L>(layers, n, event, db);
    let whole = delivery::<L>(layers, n, event, db);
    if n > 0 {
        let top = layers[n - 1];
        if !receptive::<L>(top) {
            lemma_delivery_by_layer::<L>(layers, n - 1, event, db);
            assert(whole == delivery::<L>(layers, n - 1, event, db));
            assert(taker::<L>(layers, n, event, db) == taker::<L>(layers, n - 1, event, db));
            assert forall|i: int| 0 <= i < layers.len() implies #[trigger] whole.state[i] == if visited::<L>(
                layers,
                n,
                i,
                event,
                db,
            ) {
                L::input_reaction(layers[i], event, db).state
            } else {
                layers[i]
            } by {
                assert(visited::<L>(layers, n, i, event, db) == visited::<L>(layers, n - 1, i, event, db));
            }
        } else {
            let answer = L::input_reaction(top, event, db);
            let after = layers.update(n - 1, answer.state);
            if !(L::modal(top) || answer.consumed) {
                let lower = delivery::<L>(layers, n - 1, event, db);
                lemma_delivery_by_layer::<L>(layers, n - 1, event, db);
                lemma_delivery_frame::<L>(after, layers, n - 1, event, db);
                lemma_delivery_frame::<L>(layers, after, n - 1, event, db);
                lemma_taker::<L>(layers, n - 1, event, db);
                assert(whole.state == delivery::<L>(after, n - 1, event, db).state);
                assert(taker::<L>(layers, n, event, db) == taker::<L>(layers, n - 1, event, db));
                assert forall|i: int| 0 <= i < layers.len() implies #[trigger] whole.state[i] == if visited::<L>(
                    layers,
                    n,
                    i,
                    event,
                    db,
                ) {
                    L::input_reaction(layers[i], event, db).state
                } else {
                    layers[i]
                } by {
                    if i < n - 1 {
                        assert(whole.state[i] == lower.state[i]);
                        assert(visited::<L>(layers, n, i, event, db) == visited::<L>(layers, n - 1, i, event, db));
                    } else {
                        assert(whole.state[i] == after[i]);
                    }
                }
            } else {
                assert(whole.state == after);
                assert(taker::<L>(layers, n, event, db) == n - 1);
            }
        }
    }
}

/// In a stack whose receptive layers are all non-modal, an event is
/// consumed if and only if the handler of some receptive layer consumes it.
/// The layers are asked from the top down and the first consumer is the
/// last layer asked: every layer below it stays as it is.
pub proof fn law_first_consumer_wins<L: Layer>(layers: Seq<L::V>, event: TerminalEvent, db: DbView)
    requires
        forall|i: int| 0 <= i < layers.len() && receptive::<L>(#[trigger] layers[i]) ==> !L::modal(layers[i]),
    ensures
        delivery::<L>(layers, layers.len() as int, event, db).consumed <==> exists|i: int|
            0 <= i < layers.len() && receptive::<L>(#[trigger] layers[i]) && L::input_reaction(
                layers[i],
                event,
                db,
            ).consumed,
        forall|i: int, j: int|
            0 <= j < i < layers.len() && receptive::<L>(#[trigger] layers[i]) && L::input_reaction(
                layers[i],
                event,
                db,
            ).consumed ==> #[trigger] delivery::<L>(layers, layers.len() as int, event, db).state[j] == layers[j],
{
    let n = layers.len() as int;
    let t = taker::<L>(layers, n, event, db);
    lemma_taker::<L>(layers, n, event, db);
    lemma_delivery_by_layer::<L>(layers, n, event, db);
    if t >= 0 {
        assert(receptive::<L>(layers[t]) && L::input_reaction(layers[t], event, db).consumed);
    }
    if exists|i: int|
        0 <= i < layers.len() && receptive::<L>(#[trigger] layers[i]) && L::input_reaction(layers[i], event, db).consumed {
        let i = choose|i: int|
            0 <= i < layers.len() && receptive::<L>(#[trigger] layers[i]) && L::input_reaction(
                layers[i],
                event,
                db,
            ).consumed;
        assert(stops::<L>(layers[i], event, db));
        assert(t >= i);
    }
    assert forall|i: int, j: int|
        0 <= j < i < layers.len() && receptive::<L>(#[trigger] layers[i]) && L::input_reaction(
            layers[i],
            event,
            db,
        ).consumed implies #[trigger] delivery::<L>(layers, n, event, db).state[j] == layers[j] by {
        assert(stops::<L>(layers[i], event, db));
        assert(t >= i);
        assert(!visited::<L>(layers, n, j, event, db));
    }
}

/// Where the topmost receptive layer is modal, it alone gets the event:
/// its answer is the answer of the stack whatever it returns, and no layer
/// below it is asked, changes or emits anything.
pub proof fn law_modal_keeps_input<L: Layer>(layers: Seq<L::V>, m: int, event: TerminalEvent, db: DbView)
    requires
        0 <= m < layers.len(),
        receptive::<L>(layers[m]),
        L::modal(layers[m]),
        forall|i: int| m < i < layers.len() ==> !receptive::<L>(#[trigger] layers[i]),
    ensures
        delivery::<L>(layers, layers.len() as int, event, db) == (Reaction {
            consumed: L::input_reaction(layers[m], event, db).consumed,
            state: layers.update(m, L::input_reaction(layers[m], event, db).state),
            emitted: L::input_reaction(layers[m], event, db).emitted,
        }),
{
    lemma_modal_from::<L>(layers, m, layers.len() as int, event, db);
}

proof fn lemma_modal_from<L: Layer>(layers: Seq<L::V>, m: int, n: int, event: TerminalEvent, db: DbView)
    requires
        0 <= m < n <= layers.len(),
        receptive::<L>(layers[m]),
        L::modal(layers[m]),
        forall|i: int| m < i < layers.len() ==> !receptive::<L>(#[trigger] layers[i]),
    ensures
        delivery::<L>(layers, n, event, db) == (Reaction {
            consumed: L::input_reaction(layers[m], event, db).consumed,
            state: layers.update(m, L::input_reaction(layers[m], event, db).state),
            emitted: L::input_reaction(layers[m], event, db).emitted,
        }),
    decreases n,
{
    if n - 1 > m {
        assert(!receptive::<L>(layers[n - 1]));
        lemma_modal_from::<L>(layers, m, n - 1, event, db);
    }
}

/// A layer without focus is passed over: it stays as it is, and the stack
/// answers as the stack without that layer would, layer for layer.
pub proof fn law_unfocused_skipped<L: Layer>(layers: Seq<L::V>, i: int, event: TerminalEvent, db: DbView)
    requires
        0 <= i < layers.len(),
        !L::focused(layers[i]),
    ensures
        delivery::<L>(layers, layers.len() as int, event, db).state[i] == layers[i],
        delivery::<L>(layers, layers.len() as int, event, db).consumed == delivery::<L>(
            layers.remove(i),
            layers.len() - 1,
            event,
            db,
        ).consumed,
        delivery::<L>(layers, layers.len() as int, event, db).emitted == delivery::<L>(
            layers.remove(i),
            layers.len() - 1,
            event,
            db,
        ).emitted,
        delivery::<L>(layers, layers.len() as int, event, db).state.remove(i) == delivery::<L>(
            layers.remove(i),
            layers.len() - 1,
            event,
            db,
        ).state,
{
    lemma_skipped_from::<L>(layers, i, layers.len() as int, event, db);
}

/// A hidden layer is passed over, even while it has the focus: it stays
/// as it is, and the stack answers as the stack without that layer would,
/// layer for layer.
pub proof fn law_hidden_skipped<L: Layer>(layers: Seq<L::V>, i: int, event: TerminalEvent, db: DbView)
    requires
        0 <= i < layers.len(),
        !L::visible(layers[i]),
    ensures
        delivery::<L>(layers, layers.len() as int, event, db).state[i] == layers[i],
        delivery::<L>(layers, layers.len() as int, event, db).consumed == delivery::<L>(
            layers.remove(i),
            layers.len() - 1,
            event,
            db,
        ).consumed,
        delivery::<L>(layers, layers.len() as int, event, db).emitted == delivery::<L>(
            layers.remove(i),
            layers.len() - 1,
            event,
            db,
        ).emitted,
        delivery::<L>(layers, layers.len() as int, event, db).state.remove(i) == delivery::<L>(
            layers.remove(i),
            layers.len() - 1,
            event,
            db,
        ).state,
{
    lemma_skipped_from::<L>(layers, i, layers.len() as int, event, db);
}

/// Taking the focus from a layer takes it out of the input: whatever it
/// did with events before, the next event passes it by, and the stack
/// answers as it would without that layer.
pub proof fn law_unfocusing_skips<L: Layer>(layers: Seq<L::V>, i: int, event: TerminalEvent, db: DbView)
    requires
        0 <= i < layers.len(),
    ensures
        ({
            let unfocused = L::with_focus(layers[i], false);
            let after = layers.update(i, unfocused);
            let answer = delivery::<L>(after, after.len() as int, event, db);
            let without = delivery::<L>(layers.remove(i), layers.len() - 1, event, db);
            &&& answer.state[i] == unfocused
            &&& answer.consumed == without.consumed
            &&& answer.emitted == without.emitted
            &&& answer.state.remove(i) == without.state
        }),
{
    let after = layers.update(i, L::with_focus(layers[i], false));
    L::lemma_focus_sets(layers[i], false);
    law_unfocused_skipped::<L>(after, i, event, db);
    assert(after.remove(i) =~= layers.remove(i));
}

proof fn lemma_skipped_from<L: Layer>(layers: Seq<L::V>, i: int, n: int, event: TerminalEvent, db: DbView)
    requires
        0 <= i < n <= layers.len(),
        !receptive::<L>(layers[i]),
    ensures
        delivery::<L>(layers, n, event, db).state.len() == layers.len(),
        delivery::<L>(layers, n, event, db).state[i] == layers[i],
        delivery::<L>(layers, n, event, db).consumed == delivery::<L>(layers.remove(i), n - 1, event, db).consumed,
        delivery::<L>(layers, n, event, db).emitted == delivery::<L>(layers.remove(i), n - 1, event, db).emitted,
        delivery::<L>(layers, n, event, db).state.remove(i) == delivery::<L>(layers.remove(i), n - 1, event, db).state,
    decreases n,
{
    let without = layers.remove(i);
    if n - 1 == i {
        assert forall|k: int| 0 <= k < i implies layers[k] == without[k] by {}
        lemma_delivery_frame::<L>(layers, without, i, event, db);
        lemma_delivery_frame::<L>(without, layers, i, event, db);
        let with_it = delivery::<L>(layers, i, event, db).state;
        let without_it = delivery::<L>(without, i, event, db).state;
        assert(delivery::<L>(layers, n, event, db) == delivery::<L>(layers, i, event, db));
        assert(with_it.len() == layers.len());
        assert(without_it.len() == without.len());
        assert forall|k: int| 0 <= k < without.len() implies with_it.remove(i)[k] == without_it[k] by {
            if k >= i {
                assert(with_it[k + 1] == layers[k + 1]);
                assert(without_it[k] == without[k]);
            }
        }
        assert(with_it.remove(i) =~= without_it);
    } else {
        let top = layers[n - 1];
        assert(without[n - 2] == top);
        if !receptive::<L>(top) {
            lemma_skipped_from::<L>(layers, i, n - 1, event, db);
        } else {
            let answer = L::input_reaction(top, event, db);
            let after = layers.update(n - 1, answer.state);
            assert(after.remove(i) =~= without.update(n - 2, answer.state));
            if !(L::modal(top) || answer.consumed) {
                lemma_skipped_from::<L>(after, i, n - 1, event, db);
            }
        }
    }
}

/// A sweep leaves no layer that asked to be removed.
pub proof fn lemma_swept_kept<L: Layer>(layers: Seq<L::V>, n: int)
    requires
        0 <= n <= layers.len(),
    ensures
        swept::<L>(layers, n).len() <= n,
        forall|i: int| 0 <= i < swept::<L>(layers, n).len() ==> !L::remove_requested(#[trigger] swept::<L>(layers, n)[i]),
    decreases n,
{
    if n > 0 {
        lemma_swept_kept::<L>(layers, n - 1);
    }
}

/// A sweep of layers of which none asked to be removed takes nothing away.
pub proof fn lemma_swept_nothing<L: Layer>(layers: Seq<L::V>, n: int)
    requires
        0 <= n <= layers.len(),
        forall|i: int| 0 <= i < n ==> !L::remove_requested(#[trigger] layers[i]),
    ensures
        swept::<L>(layers, n) == layers.take(n),
    decreases n,
{
    if n > 0 {
        lemma_swept_nothing::<L>(layers, n - 1);
        assert(layers.take(n) =~= layers.take(n - 1).push(layers[n - 1]));
    } else {
        assert(layers.take(0) =~= Seq::<L::V>::empty());
    }
}

/// A sweep right after a sweep removes nothing.
pub proof fn law_sweep_idempotent<L: Layer>(layers: Seq<L::V>)
    ensures
        swept::<L>(swept::<L>(layers, layers.len() as int), swept::<L>(layers, layers.len() as int).len() as int)
            == swept::<L>(layers, layers.len() as int),
{
    let once = swept::<L>(layers, layers.len() as int);
    lemma_swept_kept::<L>(layers, layers.len() as int);
    lemma_swept_nothing::<L>(once, once.len() as int);
    assert(once.take(once.len() as int) =~= once);
}

} // verus!
