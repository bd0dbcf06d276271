//! Layers, and the stack of them.

use vstd::prelude::*;
use crate::component::{Component, EventComponent, Reaction, TerminalEvent, reacted};
use crate::event_dispatcher::{Callback, KeyEventDispatcher, TermEventDispatcher};
use crate::layout::Rect;
use crate::model::{Db, DbView};
use crate::render::{RenderFrame, RenderOpView};
use crate::theme::UiTheme;
use crate::ui_events::{UiEventView, UiEvents, pending};

verus! {

/// A top-level surface: a page, a popup or a dialog.
pub trait Layer: Component + EventComponent {
    /// Whether the layer keeps all input to itself while it is on top.
    spec fn modal(v: Self::V) -> bool;

    /// The layer after `set_modal(value)`.
    spec fn with_modal(v: Self::V, value: bool) -> Self::V;

    /// Whether the layer asked to be taken off the stack.
    spec fn remove_requested(v: Self::V) -> bool;

    /// Whether the layer keeps all input to itself while it is on top.
    fn is_modal(&self) -> (modal: bool)
        ensures
            modal == Self::modal(self@),
    ;

    /// Makes the layer modal or not.
    fn set_modal(&mut self, is_modal: bool)
        ensures
            final(self)@ == Self::with_modal(old(self)@, is_modal),
    ;

    /// Whether the layer asked to be taken off the stack.
    fn is_remove_requested(&self) -> (requested: bool)
        ensures
            requested == Self::remove_requested(self@),
    ;
}

/// A component that can stand in a `UiLayer`.
pub trait LayerItemComponent: Component + EventComponent {
}

/// A layer made of components that all get the whole area of the layer.
pub struct UiLayer<C: LayerItemComponent> {
    components: Vec<C>,
    is_focused: bool,
    is_visible: bool,
    is_modal: bool,
}

/// The mathematical value of a `UiLayer`.
pub ghost struct UiLayerView<V> {
    pub components: Seq<V>,
    pub is_focused: bool,
    pub is_visible: bool,
    pub is_modal: bool,
}

/// The mathematical values of a sequence of components.
pub open spec fn component_views<C: LayerItemComponent>(components: Seq<C>) -> Seq<C::V> {
    components.map_values(|component: C| component@)
}

impl<C: LayerItemComponent> View for UiLayer<C> {
    type V = UiLayerView<C::V>;

    closed spec fn view(&self) -> UiLayerView<C::V> {
        UiLayerView {
            components: component_views(self.components@),
            is_focused: self.is_focused,
            is_visible: self.is_visible,
            is_modal: self.is_modal,
        }
    }
}

/// What the components from index `from` on do with an event that is
/// offered to them one after the other: the first that consumes it is the
/// last that gets it.
pub open spec fn offer<C: LayerItemComponent>(
    components: Seq<C::V>,
    from: int,
    event: TerminalEvent,
    db: DbView,
) -> Reaction<Seq<C::V>>
    decreases components.len() - from,
{
    if from < 0 || from >= components.len() {
        Reaction::ignored(components)
    } else {
        let answer = C::input_reaction(components[from], event, db);
        let after = components.update(from, answer.state);
        if answer.consumed {
            Reaction { consumed: true, state: after, emitted: answer.emitted }
        } else {
            let rest = offer::<C>(after, from + 1, event, db);
            Reaction { consumed: rest.consumed, state: rest.state, emitted: answer.emitted + rest.emitted }
        }
    }
}

/// Whether `parts` holds, for each component, a painting the component
/// may make of itself in `area`.
pub open spec fn all_paint<C: LayerItemComponent>(
    components: Seq<C::V>,
    area: Rect,
    db: DbView,
    parts: Seq<Seq<RenderOpView>>,
) -> bool {
    &&& parts.len() == components.len()
    &&& forall|i: int| 0 <= i < components.len() ==> C::paints(components[i], area, db, #[trigger] parts[i])
}

impl<C: LayerItemComponent> UiLayer<C> {
    /// A layer without components: shown, not focused, not modal.
    pub fn new() -> (layer: Self)
        ensures
            layer@ == (UiLayerView::<C::V> {
                components: Seq::empty(),
                is_focused: false,
                is_visible: true,
                is_modal: false,
            }),
    {
        let layer = Self::with_components(Vec::new());
        assert(layer@.components =~= Seq::<C::V>::empty());
        layer
    }

    /// A layer of the given components: shown, not focused, not modal.
    pub fn with_components(components: Vec<C>) -> (layer: Self)
        ensures
            layer@ == (UiLayerView::<C::V> {
                components: component_views(components@),
                is_focused: false,
                is_visible: true,
                is_modal: false,
            }),
    {
        Self { components, is_focused: false, is_visible: true, is_modal: false }
    }

    /// Puts `component` behind the components of the layer.
    pub fn add(&mut self, component: C)
        ensures
            final(self)@ == (UiLayerView { components: old(self)@.components.push(component@), ..old(self)@ }),
    {
        self.components.push(component);
        assert(self@.components =~= old(self)@.components.push(component@));
    }

    /// The number of components.
    pub fn len(&self) -> (n: usize)
        ensures
            n == self@.components.len(),
    {
        self.components.len()
    }
}

impl<C: LayerItemComponent> KeyEventDispatcher for UiLayer<C> {
    /// The layer itself handles no callback.
    open spec fn reaction(v: UiLayerView<C::V>, callback: Callback, db: DbView) -> Reaction<UiLayerView<C::V>> {
        Reaction::ignored(v)
    }

    fn on_callback(&mut self, callback: &Callback, db: &Db, bus: &mut UiEvents) -> (consumed: bool) {
        assert(pending(bus) =~= pending(bus) + Seq::<UiEventView>::empty());
        false
    }
}

impl<C: LayerItemComponent> TermEventDispatcher for UiLayer<C> {
}

impl<C: LayerItemComponent> Component for UiLayer<C> {
    open spec fn visible(v: UiLayerView<C::V>) -> bool {
        v.is_visible
    }

    /// The layer and each of its components are shown or hidden.
    open spec fn with_visible(v: UiLayerView<C::V>, value: bool) -> UiLayerView<C::V> {
        UiLayerView {
            is_visible: value,
            components: v.components.map_values(|c: C::V| C::with_visible(c, value)),
            ..v
        }
    }

    /// Each component takes over the theme.
    open spec fn themed(v: UiLayerView<C::V>, theme: UiTheme) -> UiLayerView<C::V> {
        UiLayerView { components: v.components.map_values(|c: C::V| C::themed(c, theme)), ..v }
    }

    /// The paintings of the components, one after the other.
    open spec fn paints(v: UiLayerView<C::V>, area: Rect, db: DbView, ops: Seq<RenderOpView>) -> bool {
        exists|parts: Seq<Seq<RenderOpView>>| #[trigger]
            all_paint::<C>(v.components, area, db, parts) && ops == joined(parts, parts.len() as int)
    }

    fn is_visible(&self) -> (shown: bool) {
        self.is_visible
    }

    fn set_visible(&mut self, value: bool) {
        self.is_visible = value;
        let mut at: usize = 0;
        while at < self.components.len()
            invariant
                at <= self.components@.len(),
                self.components@.len() == old(self).components@.len(),
                self.is_visible == value,
                self.is_focused == old(self).is_focused,
                self.is_modal == old(self).is_modal,
                forall|k: int| 0 <= k < at ==> self@.components[k] == C::with_visible(old(self)@.components[k], value),
                forall|k: int| at <= k < self.components@.len() ==> self@.components[k] == old(self)@.components[k],
            decreases self.components@.len() - at,
        {
            let ghost current = self@.components;
            assert(current[at as int] == old(self)@.components[at as int]);
            self.components[at].set_visible(value);
            assert(self@.components =~= current.update(at as int, C::with_visible(current[at as int], value)));
            at += 1;
        }
        assert(self@.components =~= old(self)@.components.map_values(|c: C::V| C::with_visible(c, value)));
    }

    fn draw(&self, f: &mut RenderFrame, area: Rect, db: &Db) {
        let ghost mut parts: Seq<Seq<RenderOpView>> = Seq::empty();
        let mut at: usize = 0;
        assert(f@.ops =~= old(f)@.ops + joined(parts, 0));
        while at < self.components.len()
            invariant
                at <= self.components@.len(),
                parts.len() == at,
                f@.size == old(f)@.size,
                f@.ops == old(f)@.ops + joined(parts, at as int),
                forall|i: int| 0 <= i < at ==> C::paints(self@.components[i], area, db@, #[trigger] parts[i]),
            decreases self.components@.len() - at,
        {
            let ghost before = f@.ops;
            let ghost so_far = parts;
            assert(self@.components[at as int] == self.components@[at as int]@);
            self.components[at].draw(f, area, db);
            proof {
                let ops = choose|ops: Seq<RenderOpView>| #[trigger]
                    C::paints(self@.components[at as int], area, db@, ops) && f@.ops == before + ops;
                parts = parts.push(ops);
                lemma_joined_prefix(so_far, parts, at as int);
                assert(f@.ops =~= old(f)@.ops + joined(parts, at + 1));
            }
            at += 1;
        }
        assert(all_paint::<C>(self@.components, area, db@, parts));
        assert(Self::paints(self@, area, db@, joined(parts, parts.len() as int)));
    }

    fn apply_theme(&mut self, theme: &UiTheme) {
        let mut at: usize = 0;
        while at < self.components.len()
            invariant
                at <= self.components@.len(),
                self.components@.len() == old(self).components@.len(),
                self.is_visible == old(self).is_visible,
                self.is_focused == old(self).is_focused,
                self.is_modal == old(self).is_modal,
                forall|k: int| 0 <= k < at ==> self@.components[k] == C::themed(old(self)@.components[k], *theme),
                forall|k: int| at <= k < self.components@.len() ==> self@.components[k] == old(self)@.components[k],
            decreases self.components@.len() - at,
        {
            let ghost current = self@.components;
            assert(current[at as int] == old(self)@.components[at as int]);
            self.components[at].apply_theme(theme);
            assert(self@.components =~= current.update(at as int, C::themed(current[at as int], *theme)));
            at += 1;
        }
        assert(self@.components =~= old(self)@.components.map_values(|c: C::V| C::themed(c, *theme)));
    }
}

impl<C: LayerItemComponent> EventComponent for UiLayer<C> {
    open spec fn focused(v: UiLayerView<C::V>) -> bool {
        v.is_focused
    }

    /// The layer and each of its components get or lose the focus.
    open spec fn with_focus(v: UiLayerView<C::V>, value: bool) -> UiLayerView<C::V> {
        UiLayerView {
            is_focused: value,
            components: v.components.map_values(|c: C::V| C::with_focus(c, value)),
            ..v
        }
    }

    /// Without focus the layer takes no event and asks no component. With
    /// focus the event goes to the components in their order until one
    /// consumes it.
    open spec fn input_reaction(v: UiLayerView<C::V>, event: TerminalEvent, db: DbView) -> Reaction<
        UiLayerView<C::V>,
    > {
        if !v.is_focused {
            Reaction::ignored(v)
        } else {
            let offered = offer::<C>(v.components, 0, event, db);
            Reaction {
                consumed: offered.consumed,
                state: UiLayerView { components: offered.state, ..v },
                emitted: offered.emitted,
            }
        }
    }

    proof fn lemma_focus_sets(v: UiLayerView<C::V>, value: bool) {
    }

    proof fn lemma_visibility_keeps_focus(v: UiLayerView<C::V>, value: bool) {
    }

    fn focus(&mut self, value: bool) {
        self.is_focused = value;
        let mut at: usize = 0;
        while at < self.components.len()
            invariant
                at <= self.components@.len(),
                self.components@.len() == old(self).components@.len(),
                self.is_visible == old(self).is_visible,
                self.is_focused == value,
                self.is_modal == old(self).is_modal,
                forall|k: int| 0 <= k < at ==> self@.components[k] == C::with_focus(old(self)@.components[k], value),
                forall|k: int| at <= k < self.components@.len() ==> self@.components[k] == old(self)@.components[k],
            decreases self.components@.len() - at,
        {
            let ghost current = self@.components;
            assert(current[at as int] == old(self)@.components[at as int]);
            self.components[at].focus(value);
            assert(self@.components =~= current.update(at as int, C::with_focus(current[at as int], value)));
            at += 1;
        }
        assert(self@.components =~= old(self)@.components.map_values(|c: C::V| C::with_focus(c, value)));
    }

    fn on_focus(&self) -> (focused: bool) {
        self.is_focused
    }

    fn on_term_event(&mut self, event: &TerminalEvent, db: &Db, bus: &mut UiEvents) -> (consumed: bool) {
        if !self.is_focused {
            assert(pending(bus) =~= pending(bus) + Seq::<UiEventView>::empty());
            return false;
        }
        let ghost whole = offer::<C>(self@.components, 0, *event, db@);
        let ghost mut emitted: Seq<UiEventView> = Seq::empty();
        let mut at: usize = 0;
        assert(pending(bus) =~= pending(old(bus)) + emitted);
        assert(emitted + whole.emitted =~= whole.emitted);
        while at < self.components.len()
            invariant
                at <= self.components@.len(),
                self.components@.len() == old(self).components@.len(),
                self.is_visible == old(self).is_visible,
                self.is_focused == old(self).is_focused,
                old(self)@.is_focused,
                self.is_modal == old(self).is_modal,
                pending(bus) == pending(old(bus)) + emitted,
                whole == offer::<C>(old(self)@.components, 0, *event, db@),
                whole.consumed == offer::<C>(self@.components, at as int, *event, db@).consumed,
                whole.state == offer::<C>(self@.components, at as int, *event, db@).state,
                whole.emitted == emitted + offer::<C>(self@.components, at as int, *event, db@).emitted,
            decreases self.components@.len() - at,
        {
            let ghost current = self@.components;
            assert(current[at as int] == self.components@[at as int]@);
            let consumed = self.components[at].on_term_event(event, db, bus);
            proof {
                let answer = C::input_reaction(current[at as int], *event, db@);
                assert(self@.components =~= current.update(at as int, answer.state));
                assert(pending(bus) =~= pending(old(bus)) + (emitted + answer.emitted));
                emitted = emitted + answer.emitted;
            }
            if consumed {
                return true;
            }
            proof {
                let rest = offer::<C>(self@.components, at + 1, *event, db@);
                assert(whole.emitted =~= emitted + rest.emitted);
            }
            at += 1;
        }
        assert(whole.emitted =~= emitted);
        false
    }
}

impl<C: LayerItemComponent> Layer for UiLayer<C> {
    open spec fn modal(v: UiLayerView<C::V>) -> bool {
        v.is_modal
    }

    open spec fn with_modal(v: UiLayerView<C::V>, value: bool) -> UiLayerView<C::V> {
        UiLayerView { is_modal: value, ..v }
    }

    /// A layer of components never asks to be removed.
    open spec fn remove_requested(v: UiLayerView<C::V>) -> bool {
        false
    }

    fn is_modal(&self) -> (modal: bool) {
        self.is_modal
    }

    fn set_modal(&mut self, is_modal: bool) {
        self.is_modal = is_modal;
    }

    fn is_remove_requested(&self) -> (requested: bool) {
        false
    }
}

/// The stack of layers, bottom first: the last layer is on top, is drawn
/// last and is offered input first.
pub struct UiLayers<L: Layer> {
    layers: Vec<L>,
}

/// The mathematical values of a sequence of layers.
pub open spec fn layer_views<L: Layer>(layers: Seq<L>) -> Seq<L::V> {
    layers.map_values(|layer: L| layer@)
}

impl<L: Layer> View for UiLayers<L> {
    type V = Seq<L::V>;

    /// The layers, bottom first.
    closed spec fn view(&self) -> Seq<L::V> {
        layer_views(self.layers@)
    }
}

/// Whether a layer is offered input: it is focused and shown. Both are
/// asked for: a hidden layer gets no input even while it has the focus, and
/// a layer without focus gets none even while it is shown.
pub open spec fn receptive<L: Layer>(v: L::V) -> bool {
    L::focused(v) && L::visible(v)
}

/// What the lowest `n` layers of `layers` do with an event that is offered
/// to them from the top down. A layer that is not receptive is passed over.
/// A receptive layer gets the event; if it is modal, or if it consumes the
/// event, the event goes no further and the layer's answer is the answer;
/// otherwise the event goes on to the layers below.
pub open spec fn delivery<L: Layer>(layers: Seq<L::V>, n: int, event: TerminalEvent, db: DbView) -> Reaction<
    Seq<L::V>,
>
    decreases n,
{
    if n <= 0 {
        Reaction::ignored(layers)
    } else if !receptive::<L>(layers[n - 1]) {
        delivery::<L>(layers, n - 1, event, db)
    } else {
        let answer = L::input_reaction(layers[n - 1], event, db);
        let after = layers.update(n - 1, answer.state);
        if L::modal(layers[n - 1]) || answer.consumed {
            Reaction { consumed: answer.consumed, state: after, emitted: answer.emitted }
        } else {
            let below = delivery::<L>(after, n - 1, event, db);
            Reaction { consumed: below.consumed, state: below.state, emitted: answer.emitted + below.emitted }
        }
    }
}

/// The lowest `n` layers of `layers` without those that asked to be
/// removed, in their order.
pub open spec fn swept<L: Layer>(layers: Seq<L::V>, n: int) -> Seq<L::V>
    decreases n,
{
    if n <= 0 {
        Seq::empty()
    } else if L::remove_requested(layers[n - 1]) {
        swept::<L>(layers, n - 1)
    } else {
        swept::<L>(layers, n - 1).push(layers[n - 1])
    }
}

/// The first `n` of `parts`, one after the other.
pub open spec fn joined(parts: Seq<Seq<RenderOpView>>, n: int) -> Seq<RenderOpView>
    decreases n,
{
    if n <= 0 {
        Seq::empty()
    } else {
        joined(parts, n - 1) + parts[n - 1]
    }
}

/// Whether `parts` holds, for each layer, a painting the layer may make
/// of itself in `area` if it is shown, and nothing if it is hidden.
pub open spec fn stack_paints<L: Layer>(
    layers: Seq<L::V>,
    area: Rect,
    db: DbView,
    parts: Seq<Seq<RenderOpView>>,
) -> bool {
    &&& parts.len() == layers.len()
    &&& forall|i: int|
        0 <= i < layers.len() ==> if L::visible(layers[i]) {
            L::paints(layers[i], area, db, #[trigger] parts[i])
        } else {
            parts[i] == Seq::<RenderOpView>::empty()
        }
}

impl<L: Layer> UiLayers<L> {
    /// An empty stack.
    pub fn new() -> (stack: Self)
        ensures
            stack@ == Seq::<L::V>::empty(),
    {
        let stack = Self { layers: Vec::new() };
        assert(stack@ =~= Seq::<L::V>::empty());
        stack
    }

    /// The number of layers.
    pub fn len(&self) -> (n: usize)
        ensures
            n == self@.len(),
    {
        self.layers.len()
    }

    /// Puts `layer` on top of the stack, focused and shown.
    pub fn push(&mut self, layer: L)
        ensures
            final(self)@ == old(self)@.push(L::with_visible(L::with_focus(layer@, true), true)),
            receptive::<L>(final(self)@.last()),
    {
        let mut layer = layer;
        layer.focus(true);
        proof {
            L::lemma_visibility_keeps_focus(layer@, true);
        }
        layer.set_visible(true);
        self.layers.push(layer);
        assert(self@ =~= old(self)@.push(layer@));
    }

    /// Takes the topmost layer off the stack, if there is one.
    pub fn pop(&mut self)
        ensures
            old(self)@.len() == 0 ==> final(self)@ == old(self)@,
            old(self)@.len() > 0 ==> final(self)@ == old(self)@.drop_last(),
    {
        self.layers.pop();
        assert(old(self)@.len() > 0 ==> self@ =~= old(self)@.drop_last());
    }

    /// The topmost layer, to change it; `None` where the stack is empty.
    pub fn top(&mut self) -> (layer: Option<&mut L>)
        ensures
            old(self)@.len() == 0 ==> layer is None && final(self)@ == old(self)@,
            old(self)@.len() > 0 ==> match layer {
                Some(top) => top@ == old(self)@.last() && final(self)@ == old(self)@.update(
                    old(self)@.len() - 1,
                    final(top)@,
                ),
                None => false,
            },
    {
        let n = self.layers.len();
        if n == 0 {
            None
        } else {
            let top = &mut self.layers[n - 1];
            proof {
                assert(layer_views(old(self).layers@.update(n - 1, *final(top))) =~= old(self)@.update(
                    n - 1,
                    final(top)@,
                ));
            }
            Some(top)
        }
    }

    /// The layer at `index`, counted from the bottom.
    pub fn get(&self, index: usize) -> (layer: Option<&L>)
        ensures
            index >= self@.len() ==> layer is None,
            index < self@.len() ==> layer is Some && layer.unwrap()@ == self@[index as int],
    {
        if index < self.layers.len() {
            Some(&self.layers[index])
        } else {
            None
        }
    }

    /// All the layers, bottom first.
    pub fn get_all(&self) -> (layers: &Vec<L>)
        ensures
            layer_views(layers@) == self@,
    {
        &self.layers
    }

    /// All the layers, bottom first, each to change it. What is handed out
    /// leads to the layers, not to the stack: their number and their order
    /// stay, and each layer ends as it is left through its reference.
    pub fn get_all_mut(&mut self) -> (layers: Vec<&mut L>)
        ensures
            layers@.len() == old(self)@.len(),
            forall|i: int| 0 <= i < layers@.len() ==> (*#[trigger] layers@[i])@ == old(self)@[i],
            final(self)@.len() == old(self)@.len(),
            forall|i: int| 0 <= i < layers@.len() ==> #[trigger] final(self)@[i] == (*final(layers@[i]))@,
    {
        each_mut(self.layers.as_mut_slice())
    }

    /// Takes the layers that asked to be removed off the stack; the others
    /// keep their order.
    pub fn clean(&mut self)
        ensures
            final(self)@ == swept::<L>(old(self)@, old(self)@.len() as int),
    {
        let ghost before = self@;
        let ghost mut seen: int = 0;
        let mut at: usize = 0;
        assert(self@.skip(0) =~= before.skip(0));
        assert(self@.take(0) =~= swept::<L>(before, 0));
        while at < self.layers.len()
            invariant
                0 <= at <= self.layers@.len(),
                0 <= seen <= before.len(),
                self.layers@.len() - at == before.len() - seen,
                self@.take(at as int) == swept::<L>(before, seen),
                self@.skip(at as int) == before.skip(seen),
            decreases self.layers@.len() - at,
        {
            let ghost current = self@;
            assert(current[at as int] == current.skip(at as int)[0]);
            assert(before[seen] == before.skip(seen)[0]);
            assert(current[at as int] == self.layers@[at as int]@);
            if self.layers[at].is_remove_requested() {
                self.layers.remove(at);
                proof {
                    assert(self@ =~= current.remove(at as int));
                    assert(self@.take(at as int) =~= current.take(at as int));
                    assert(self@.skip(at as int) =~= current.skip(at as int).skip(1));
                    assert(before.skip(seen + 1) =~= before.skip(seen).skip(1));
                    seen = seen + 1;
                }
            } else {
                proof {
                    assert(self@.take(at + 1) =~= current.take(at as int).push(current[at as int]));
                    assert(self@.skip(at + 1) =~= current.skip(at as int).skip(1));
                    assert(before.skip(seen + 1) =~= before.skip(seen).skip(1));
                    seen = seen + 1;
                }
                at += 1;
            }
        }
        assert(self@ =~= self@.take(at as int));
    }

    /// Offers `event` to the layers from the top down, and says whether it
    /// was consumed. See `delivery`.
    pub fn deliver_input(&mut self, event: &TerminalEvent, db: &Db, bus: &mut UiEvents) -> (consumed: bool)
        ensures
            reacted(
                delivery::<L>(old(self)@, old(self)@.len() as int, *event, db@),
                consumed,
                final(self)@,
                pending(old(bus)),
                pending(final(bus)),
            ),
    {
        let ghost whole = delivery::<L>(self@, self@.len() as int, *event, db@);
        let ghost mut emitted: Seq<UiEventView> = Seq::empty();
        let mut n: usize = self.layers.len();
        assert(pending(bus) =~= pending(old(bus)) + emitted);
        assert(emitted + whole.emitted =~= whole.emitted);
        while n > 0
            invariant
                n <= self.layers@.len(),
                self.layers@.len() == old(self).layers@.len(),
                pending(bus) == pending(old(bus)) + emitted,
                whole == delivery::<L>(old(self)@, old(self)@.len() as int, *event, db@),
                whole.consumed == delivery::<L>(self@, n as int, *event, db@).consumed,
                whole.state == delivery::<L>(self@, n as int, *event, db@).state,
                whole.emitted == emitted + delivery::<L>(self@, n as int, *event, db@).emitted,
            decreases n,
        {
            let ghost stack = self@;
            let ghost bus_before = pending(bus);
            let i: usize = n - 1;
            assert(stack[i as int] == self.layers@[i as int]@);
            if self.layers[i].on_focus() && self.layers[i].is_visible() {
                let modal = self.layers[i].is_modal();
                let consumed = self.layers[i].on_term_event(event, db, bus);
                proof {
                    let answer = L::input_reaction(stack[i as int], *event, db@);
                    assert(self@ =~= stack.update(i as int, answer.state));
                    assert(pending(bus) =~= pending(old(bus)) + (emitted + answer.emitted));
                    emitted = emitted + answer.emitted;
                }
                if modal || consumed {
                    return consumed;
                }
                proof {
                    let answer = L::input_reaction(stack[i as int], *event, db@);
                    let below = delivery::<L>(self@, i as int, *event, db@);
                    assert(whole.emitted =~= emitted + below.emitted);
                }
            }
            n = i;
        }
        assert(whole.emitted =~= emitted);
        false
    }

    /// Gives the focus to every layer or takes it from every layer.
    pub fn broadcast_focus(&mut self, value: bool)
        ensures
            final(self)@ == old(self)@.map_values(|v: L::V| L::with_focus(v, value)),
    {
        let mut at: usize = 0;
        while at < self.layers.len()
            invariant
                at <= self.layers@.len(),
                self.layers@.len() == old(self).layers@.len(),
                forall|k: int| 0 <= k < at ==> self@[k] == L::with_focus(old(self)@[k], value),
                forall|k: int| at <= k < self.layers@.len() ==> self@[k] == old(self)@[k],
            decreases self.layers@.len() - at,
        {
            let ghost current = self@;
            assert(current[at as int] == old(self)@[at as int]);
            self.layers[at].focus(value);
            assert(self@ =~= current.update(at as int, L::with_focus(current[at as int], value)));
            at += 1;
        }
        assert(self@ =~= old(self)@.map_values(|v: L::V| L::with_focus(v, value)));
    }

    /// Hands `theme` to every layer.
    pub fn apply_theme(&mut self, theme: &UiTheme)
        ensures
            final(self)@ == old(self)@.map_values(|v: L::V| L::themed(v, *theme)),
    {
        let mut at: usize = 0;
        while at < self.layers.len()
            invariant
                at <= self.layers@.len(),
                self.layers@.len() == old(self).layers@.len(),
                forall|k: int| 0 <= k < at ==> self@[k] == L::themed(old(self)@[k], *theme),
                forall|k: int| at <= k < self.layers@.len() ==> self@[k] == old(self)@[k],
            decreases self.layers@.len() - at,
        {
            let ghost current = self@;
            assert(current[at as int] == old(self)@[at as int]);
            self.layers[at].apply_theme(theme);
            assert(self@ =~= current.update(at as int, L::themed(current[at as int], *theme)));
            at += 1;
        }
        assert(self@ =~= old(self)@.map_values(|v: L::V| L::themed(v, *theme)));
    }

    /// Paints the shown layers into `area` of the frame, bottom first, so
    /// that a layer covers those below it. No layer changes.
    pub fn draw(&self, f: &mut RenderFrame, area: Rect, db: &Db)
        ensures
            final(f)@.size == old(f)@.size,
            exists|parts: Seq<Seq<RenderOpView>>| #[trigger]
                stack_paints::<L>(self@, area, db@, parts) && final(f)@.ops == old(f)@.ops + joined(
                    parts,
                    parts.len() as int,
                ),
    {
        let ghost mut parts: Seq<Seq<RenderOpView>> = Seq::empty();
        let mut at: usize = 0;
        assert(f@.ops =~= old(f)@.ops + joined(parts, 0));
        while at < self.layers.len()
            invariant
                at <= self.layers@.len(),
                parts.len() == at,
                f@.size == old(f)@.size,
                f@.ops == old(f)@.ops + joined(parts, at as int),
                forall|i: int|
                    0 <= i < at ==> if L::visible(self@[i]) {
                        L::paints(self@[i], area, db@, #[trigger] parts[i])
                    } else {
                        parts[i] == Seq::<RenderOpView>::empty()
                    },
            decreases self.layers@.len() - at,
        {
            let ghost before = f@.ops;
            let ghost so_far = parts;
            assert(self@[at as int] == self.layers@[at as int]@);
            if self.layers[at].is_visible() {
                self.layers[at].draw(f, area, db);
                proof {
                    let ops = choose|ops: Seq<RenderOpView>| #[trigger]
                        L::paints(self@[at as int], area, db@, ops) && f@.ops == before + ops;
                    parts = parts.push(ops);
                }
            } else {
                proof {
                    parts = parts.push(Seq::empty());
                    assert(f@.ops =~= before + Seq::<RenderOpView>::empty());
                }
            }
            proof {
                lemma_joined_prefix(so_far, parts, at as int);
                assert(f@.ops =~= old(f)@.ops + joined(parts, at + 1));
            }
            at += 1;
        }
        assert(stack_paints::<L>(self@, area, db@, parts));
    }
}

/// A reference to each element of `slice`, in the order of the elements.
/// The slice ends as its elements are left through their references.
fn each_mut<'a, T>(slice: &'a mut [T]) -> (refs: Vec<&'a mut T>)
    ensures
        refs@.len() == old(slice)@.len(),
        forall|i: int| 0 <= i < refs@.len() ==> *#[trigger] refs@[i] == old(slice)@[i],
        final(slice)@.len() == old(slice)@.len(),
        forall|i: int| 0 <= i < refs@.len() ==> #[trigger] final(slice)@[i] == *final(refs@[i]),
{
    let mut refs: Vec<&mut T> = Vec::new();
    let mut rest = slice;
    while rest.len() > 0
        invariant
            refs@.len() + rest@.len() == old(slice)@.len(),
            rest@ == old(slice)@.skip(refs@.len() as int),
            forall|i: int| 0 <= i < refs@.len() ==> *#[trigger] refs@[i] == old(slice)@[i],
            final(slice)@.len() >= refs@.len(),
            final(slice)@.skip(refs@.len() as int) == final(rest)@,
            forall|i: int| 0 <= i < refs@.len() ==> #[trigger] final(slice)@[i] == *final(refs@[i]),
        decreases rest@.len(),
    {
        let ghost done = refs@.len() as int;
        let (head, tail) = rest.split_at_mut(1);
        let first = head.first_mut().unwrap();
        proof {
            assert(final(slice)@[done] == final(slice)@.skip(done)[0]);
            assert(final(slice)@.skip(done + 1) =~= final(slice)@.skip(done).skip(1));
            assert(final(slice)@.skip(done + 1) =~= final(tail)@);
            assert(tail@ =~= old(slice)@.skip(done + 1));
            assert(*first == old(slice)@[done]);
            assert(final(slice)@[done] == *final(first));
        }
        refs.push(first);
        rest = tail;
    }
    refs
}

/// Joining the first `n` parts does not look at the parts behind them.
pub proof fn lemma_joined_prefix(a: Seq<Seq<RenderOpView>>, b: Seq<Seq<RenderOpView>>, n: int)
    requires
        0 <= n <= a.len(),
        n <= b.len(),
        forall|i: int| 0 <= i < n ==> a[i] == b[i],
    ensures
        joined(a, n) == joined(b, n),
    decreases n,
{
    if n > 0 {
        lemma_joined_prefix(a, b, n - 1);
    }
}

} // verus!
