//! The driver: it ties the frame, the stack of layers and the deferred bus
//! together into one cycle for each tick.

use vstd::prelude::*;
use vstd::string::*;
use crate::app_layer::{AppLayer, AppLayerView};
use crate::component::{Component, EventComponent, Reaction, TerminalEvent, reacted};
use crate::config::{AccountConfig, KeyMap};
use crate::controller::{Controller, ControllerReply, ControllerView, ReplyKind, replied_db};
use crate::exercise_editor::outcome_view;
use crate::layer::{Layer, UiLayers, delivery, joined, receptive, stack_paints, swept};
use crate::main_ui_layer::{MainUiLayer, MainUiLayerView};
use crate::message_box::{UiMessageBox, UiMessageBoxType, UiMessageBoxView};
use crate::model::DbView;
use crate::render::{Block, BlockView, RenderFrame, RenderOp, RenderOpView};
use crate::rest::RestClientError;
use crate::style::{Color, Style};
use crate::theme::UiTheme;
use crate::ui_events::{UiEvent, UiEventSender, UiEventView, UiEvents, pending};

verus! {

/// The driver of the interface.
pub struct Ui {
    need_stop: bool,
    ui_events_manager: UiEvents,
    layers: UiLayers<AppLayer>,
    controller: Controller,
}

/// The mathematical value of a `Ui`.
pub ghost struct UiView {
    pub need_stop: bool,
    /// The events waiting on the bus, oldest first.
    pub waiting: Seq<UiEventView>,
    /// The layers, bottom first.
    pub layers: Seq<AppLayerView>,
    /// The cache.
    pub db: DbView,
    /// The keys of the application.
    pub key_map: KeyMap,
    /// The account of the user.
    pub account: AccountConfig,
}

impl View for Ui {
    type V = UiView;

    closed spec fn view(&self) -> UiView {
        UiView {
            need_stop: self.need_stop,
            waiting: pending(&self.ui_events_manager),
            layers: self.layers@,
            db: self.controller@.db,
            key_map: self.controller@.key_map,
            account: self.controller@.account,
        }
    }
}

/// A layer as the stack takes it: focused and shown.
pub open spec fn raised(layer: AppLayerView) -> AppLayerView {
    AppLayer::with_visible(AppLayer::with_focus(layer, true), true)
}

/// What an input pass comes to.
pub ghost struct InputPass {
    /// The layers after the pass.
    pub layers: Seq<AppLayerView>,
    /// What the layers put on the bus, oldest first.
    pub emitted: Seq<UiEventView>,
    /// The inputs that no layer consumed, in the order in which they came.
    pub unconsumed: Seq<TerminalEvent>,
}

/// What the first `n` of `inputs` come to when they are offered to the
/// stack one after the other, each to the stack as the one before left it.
pub open spec fn input_pass(layers: Seq<AppLayerView>, inputs: Seq<TerminalEvent>, n: int, db: DbView) -> InputPass
    decreases n,
{
    if n <= 0 {
        InputPass { layers, emitted: Seq::empty(), unconsumed: Seq::empty() }
    } else {
        let before = input_pass(layers, inputs, n - 1, db);
        let answer = delivery::<AppLayer>(before.layers, before.layers.len() as int, inputs[n - 1], db);
        InputPass {
            layers: answer.state,
            emitted: before.emitted + answer.emitted,
            unconsumed: if answer.consumed {
                before.unconsumed
            } else {
                before.unconsumed.push(inputs[n - 1])
            },
        }
    }
}

/// What a drain pass comes to.
pub ghost struct Drain {
    /// The layers after the pass.
    pub layers: Seq<AppLayerView>,
    /// The events that are not for the stack, in the order in which they
    /// were put on the bus.
    pub passed_on: Seq<UiEventView>,
}

/// What the first `n` of `events` come to when they are applied to the
/// stack in their order: a layer to add goes on top, focused and shown;
/// every other event is passed on.
pub open spec fn drained(layers: Seq<AppLayerView>, events: Seq<UiEventView>, n: int) -> Drain
    decreases n,
{
    if n <= 0 {
        Drain { layers, passed_on: Seq::empty() }
    } else {
        let before = drained(layers, events, n - 1);
        match events[n - 1] {
            UiEventView::AddLayer(layer) => Drain { layers: before.layers.push(raised(layer)), ..before },
            other => Drain { passed_on: before.passed_on.push(other), ..before },
        }
    }
}

/// Layers asked for one after the other go on the stack in that order:
/// the one asked for first lies below the one asked for second.
pub proof fn law_pushes_keep_order(layers: Seq<AppLayerView>, first: AppLayerView, second: AppLayerView)
    ensures
        drained(layers, seq![UiEventView::AddLayer(first), UiEventView::AddLayer(second)], 2) == (Drain {
            layers: layers.push(raised(first)).push(raised(second)),
            passed_on: Seq::empty(),
        }),
{
    reveal_with_fuel(drained, 3);
}

/// The background of the screen.
pub open spec fn background() -> BlockView {
    BlockView { style: Style { fg: Some(Color::Black), bg: Some(Color::Red), modifier: None }, ..BlockView::plain() }
}

/// What a tick comes to.
pub ghost struct Tick {
    /// The layers after the tick.
    pub layers: Seq<AppLayerView>,
    /// The inputs that no layer consumed, for the caller to handle.
    pub unconsumed: Seq<TerminalEvent>,
    /// The events of the bus that are not for the stack, for the caller to
    /// hand on.
    pub passed_on: Seq<UiEventView>,
}

/// What a tick comes to: the inputs are offered to the stack, then the
/// bus is drained, with what waited before the tick first, then the stack is
/// swept.
pub open spec fn tick(layers: Seq<AppLayerView>, waiting: Seq<UiEventView>, inputs: Seq<TerminalEvent>, db: DbView) -> Tick {
    let pass = input_pass(layers, inputs, inputs.len() as int, db);
    let events = waiting + pass.emitted;
    let drain = drained(pass.layers, events, events.len() as int);
    Tick {
        layers: swept::<AppLayer>(drain.layers, drain.layers.len() as int),
        unconsumed: pass.unconsumed,
        passed_on: drain.passed_on,
    }
}

/// No layer that asked to be removed outlives the tick: it is neither
/// drawn nor offered input again.
pub proof fn law_tick_sweeps(
    layers: Seq<AppLayerView>,
    waiting: Seq<UiEventView>,
    inputs: Seq<TerminalEvent>,
    db: DbView,
)
    ensures
        forall|i: int|
            0 <= i < tick(layers, waiting, inputs, db).layers.len() ==> !AppLayer::remove_requested(
                #[trigger] tick(layers, waiting, inputs, db).layers[i],
            ),
{
    let pass = input_pass(layers, inputs, inputs.len() as int, db);
    let events = waiting + pass.emitted;
    let drain = drained(pass.layers, events, events.len() as int);
    crate::stack_laws::lemma_swept_kept::<AppLayer>(drain.layers, drain.layers.len() as int);
}

/// The mathematical values of a sequence of events of the bus.
pub open spec fn event_views(events: Seq<UiEvent>) -> Seq<UiEventView> {
    events.map_values(|event: UiEvent| event@)
}

/// The box that tells of a failed request.
pub open spec fn failure_box(what: Seq<char>, error: RestClientError) -> UiEventView {
    UiEventView::AddLayer(
        AppLayerView::MessageBox(UiMessageBoxView::fresh("Exercises"@, what + error.text(), UiMessageBoxType::Error)),
    )
}

/// What a reply to storing an exercise tells the editor: done, or failed
/// with the error as it is shown.
pub open spec fn stored(reply: ControllerReply) -> Option<Result<(), Seq<char>>> {
    match reply {
        ControllerReply::Inserted(Ok(_)) => Some(Ok(())),
        ControllerReply::Inserted(Err(error)) => Some(Err(error.text())),
        ControllerReply::Updated(_, Ok(_)) => Some(Ok(())),
        ControllerReply::Updated(_, Err(error)) => Some(Err(error.text())),
        _ => None,
    }
}

/// What a reply does to the stack and the bus. A failure to fetch or to
/// delete asks for a box with the error. The outcome of storing an exercise
/// goes to the editor, if an editor is on top of the stack.
pub open spec fn replied_stack(layers: Seq<AppLayerView>, reply: ControllerReply) -> Reaction<Seq<AppLayerView>> {
    match reply {
        ControllerReply::Loaded(Err(error)) => Reaction {
            consumed: true,
            state: layers,
            emitted: seq![failure_box("Can`t get all exercises:\n"@, error)],
        },
        ControllerReply::Removed(_, Err(error)) => Reaction {
            consumed: true,
            state: layers,
            emitted: seq![failure_box("Can`t remove exercise:\n"@, error)],
        },
        _ => match stored(reply) {
            Some(outcome) => if layers.len() > 0 && layers.last() is ExerciseEditor {
                let answer = layers.last()->ExerciseEditor_0.replied(outcome);
                Reaction {
                    consumed: true,
                    state: layers.update(layers.len() - 1, AppLayerView::ExerciseEditor(answer.state)),
                    emitted: answer.emitted,
                }
            } else {
                Reaction::ignored(layers)
            },
            None => Reaction::ignored(layers),
        },
    }
}

impl Ui {
    /// A driver whose stack holds the main layer, focused and shown.
    pub fn new(controller: Controller) -> (ui: Self)
        ensures
            ui@ == (UiView {
                need_stop: false,
                waiting: Seq::empty(),
                layers: seq![raised(AppLayerView::Main(MainUiLayerView::fresh()))],
                db: controller@.db,
                key_map: controller@.key_map,
                account: controller@.account,
            }),
            receptive::<AppLayer>(ui@.layers[0]),
    {
        let mut s = Self {
            ui_events_manager: UiEvents::default(),
            need_stop: false,
            layers: UiLayers::new(),
            controller,
        };
        assert(pending(&s.ui_events_manager) =~= Seq::<UiEventView>::empty());
        s.add_layer(AppLayer::Main(MainUiLayer::new()));
        assert(s@.layers =~= seq![raised(AppLayerView::Main(MainUiLayerView::fresh()))]);
        s
    }

    /// Asks the driver to stop.
    pub fn stop(&mut self)
        ensures
            final(self)@ == (UiView { need_stop: true, ..old(self)@ }),
    {
        self.need_stop = true;
    }

    /// Whether the driver was asked to stop.
    pub fn need_stop(&self) -> (stop: bool)
        ensures
            stop == self@.need_stop,
    {
        self.need_stop
    }

    /// The number of layers.
    pub fn layers_count(&self) -> (n: usize)
        ensures
            n == self@.layers.len(),
    {
        self.layers.len()
    }

    /// The layers.
    pub fn layers(&self) -> (layers: &UiLayers<AppLayer>)
        ensures
            layers@ == self@.layers,
    {
        &self.layers
    }

    /// The cache and the rules that keep it.
    pub fn controller(&self) -> (controller: &Controller)
        ensures
            controller@ == (ControllerView { db: self@.db, key_map: self@.key_map, account: self@.account }),
    {
        &self.controller
    }

    /// The draw pass: paints the background and then the shown layers,
    /// bottom first, over the whole screen. Nothing but the frame changes.
    pub fn draw(&self, f: &mut RenderFrame)
        ensures
            final(f)@.size == old(f)@.size,
            exists|parts: Seq<Seq<RenderOpView>>| #[trigger]
                stack_paints::<AppLayer>(self@.layers, old(f)@.size, self@.db, parts) && final(f)@.ops == old(f)@.ops.push(
                    RenderOpView::Block { area: old(f)@.size, block: background() },
                ) + joined(parts, parts.len() as int),
    {
        let size = f.size();
        let block = Block {
            title: String::new(),
            title_style: Style::default(),
            borders: false,
            style: Style::default().bg(Color::Red).fg(Color::Black),
            border_style: Style::default(),
        };
        f.render_widget(RenderOp::Block { area: size, block });
        let ghost cleared = f@.ops;
        self.layers.draw(f, size, self.controller.db());
        proof {
            let parts = choose|parts: Seq<Seq<RenderOpView>>| #[trigger]
                stack_paints::<AppLayer>(self@.layers, size, self@.db, parts) && f@.ops == cleared + joined(
                    parts,
                    parts.len() as int,
                );
            assert(stack_paints::<AppLayer>(self@.layers, old(f)@.size, self@.db, parts));
        }
    }

    /// The drain pass: takes every event off the bus, in the order in
    /// which they were put on it, puts the layers to add on top of the stack
    /// and hands the other events back.
    pub fn process_events(&mut self) -> (passed_on: Vec<UiEvent>)
        ensures
            final(self)@ == (UiView {
                waiting: Seq::empty(),
                layers: drained(old(self)@.layers, old(self)@.waiting, old(self)@.waiting.len() as int).layers,
                ..old(self)@
            }),
            event_views(passed_on@) == drained(
                old(self)@.layers,
                old(self)@.waiting,
                old(self)@.waiting.len() as int,
            ).passed_on,
    {
        let ghost events = old(self)@.waiting;
        let mut ui_events = self.ui_events_manager.get_all();
        let ghost all = ui_events@;
        let mut passed_on: Vec<UiEvent> = Vec::new();
        let ghost mut done: int = 0;
        assert(pending(&self.ui_events_manager) =~= Seq::<UiEventView>::empty());
        assert(event_views(passed_on@) =~= Seq::<UiEventView>::empty());
        while ui_events.len() > 0
            invariant
                0 <= done <= all.len(),
                events == event_views(all),
                ui_events@ == all.skip(done),
                self.need_stop == old(self).need_stop,
                self.controller == old(self).controller,
                pending(&self.ui_events_manager) == Seq::<UiEventView>::empty(),
                self.layers@ == drained(old(self)@.layers, events, done).layers,
                event_views(passed_on@) == drained(old(self)@.layers, events, done).passed_on,
            decreases ui_events@.len(),
        {
            let ghost before = passed_on@;
            let ui_event = ui_events.pop_front().unwrap();
            proof {
                assert(ui_event == all[done]);
                assert(ui_event@ == events[done]);
                assert(ui_events@ =~= all.skip(done + 1));
            }
            match ui_event {
                UiEvent::AddLayer(layer) => self.layers.push(layer),
                other => {
                    passed_on.push(other);
                    assert(event_views(passed_on@) =~= event_views(before).push(other@));
                },
            }
            proof {
                done = done + 1;
            }
        }
        passed_on
    }

    /// The sweep pass: takes the layers that asked to be removed off the
    /// stack.
    pub fn clean(&mut self)
        ensures
            final(self)@ == (UiView {
                layers: swept::<AppLayer>(old(self)@.layers, old(self)@.layers.len() as int),
                ..old(self)@
            }),
    {
        self.layers.clean();
    }

    /// Puts `layer` on top of the stack, focused and shown.
    pub fn add_layer(&mut self, layer: AppLayer)
        ensures
            final(self)@ == (UiView { layers: old(self)@.layers.push(raised(layer@)), ..old(self)@ }),
            receptive::<AppLayer>(final(self)@.layers.last()),
    {
        self.layers.push(layer);
    }

    /// Offers a terminal event to the layers from the top down, and says
    /// whether it was consumed. What the layers decide about the stack waits
    /// on the bus.
    pub fn send_term_event(&mut self, e: &TerminalEvent) -> (consumed: bool)
        ensures
            reacted(
                delivery::<AppLayer>(old(self)@.layers, old(self)@.layers.len() as int, *e, old(self)@.db),
                consumed,
                final(self)@.layers,
                old(self)@.waiting,
                final(self)@.waiting,
            ),
            final(self)@ == (UiView {
                layers: final(self)@.layers,
                waiting: final(self)@.waiting,
                ..old(self)@
            }),
    {
        self.layers.deliver_input(e, self.controller.db(), &mut self.ui_events_manager)
    }

    /// The input pass: offers the inputs to the stack in the order in
    /// which they came, and hands back those that no layer consumed.
    pub fn send_term_events(&mut self, inputs: &Vec<TerminalEvent>) -> (unconsumed: Vec<TerminalEvent>)
        ensures
            final(self)@ == (UiView {
                layers: input_pass(old(self)@.layers, inputs@, inputs@.len() as int, old(self)@.db).layers,
                waiting: old(self)@.waiting + input_pass(
                    old(self)@.layers,
                    inputs@,
                    inputs@.len() as int,
                    old(self)@.db,
                ).emitted,
                ..old(self)@
            }),
            unconsumed@ == input_pass(old(self)@.layers, inputs@, inputs@.len() as int, old(self)@.db).unconsumed,
    {
        let mut unconsumed: Vec<TerminalEvent> = Vec::new();
        let mut at: usize = 0;
        assert(self@.waiting =~= old(self)@.waiting + Seq::<UiEventView>::empty());
        while at < inputs.len()
            invariant
                at <= inputs@.len(),
                self@.need_stop == old(self)@.need_stop,
                self@.db == old(self)@.db,
                self@.key_map == old(self)@.key_map,
                self@.account == old(self)@.account,
                self@.layers == input_pass(old(self)@.layers, inputs@, at as int, old(self)@.db).layers,
                self@.waiting == old(self)@.waiting + input_pass(old(self)@.layers, inputs@, at as int, old(self)@.db).emitted,
                unconsumed@ == input_pass(old(self)@.layers, inputs@, at as int, old(self)@.db).unconsumed,
            decreases inputs@.len() - at,
        {
            let ghost before = input_pass(old(self)@.layers, inputs@, at as int, old(self)@.db);
            let ghost answer = delivery::<AppLayer>(self@.layers, self@.layers.len() as int, inputs@[at as int], self@.db);
            if !self.send_term_event(&inputs[at]) {
                unconsumed.push(inputs[at].clone());
            }
            assert(self@.waiting =~= old(self)@.waiting + (before.emitted + answer.emitted));
            at += 1;
        }
        unconsumed
    }

    /// One tick: the draw pass, the input pass, the drain pass and the
    /// sweep pass, in this order. The frame shows the stack as it was before
    /// the inputs; what the inputs asked of the stack is done before the
    /// tick ends.
    pub fn process(&mut self, f: &mut RenderFrame, inputs: &Vec<TerminalEvent>) -> (handed: (
        Vec<TerminalEvent>,
        Vec<UiEvent>,
    ))
        ensures
            final(f)@.size == old(f)@.size,
            exists|parts: Seq<Seq<RenderOpView>>| #[trigger]
                stack_paints::<AppLayer>(old(self)@.layers, old(f)@.size, old(self)@.db, parts) && final(f)@.ops == old(
                    f,
                )@.ops.push(RenderOpView::Block { area: old(f)@.size, block: background() }) + joined(
                    parts,
                    parts.len() as int,
                ),
            final(self)@ == (UiView {
                layers: tick(old(self)@.layers, old(self)@.waiting, inputs@, old(self)@.db).layers,
                waiting: Seq::empty(),
                ..old(self)@
            }),
            handed.0@ == tick(old(self)@.layers, old(self)@.waiting, inputs@, old(self)@.db).unconsumed,
            event_views(handed.1@) == tick(old(self)@.layers, old(self)@.waiting, inputs@, old(self)@.db).passed_on,
    {
        self.draw(f);
        let unconsumed = self.send_term_events(inputs);
        let passed_on = self.process_events();
        self.clean();
        (unconsumed, passed_on)
    }

    /// Hands `theme` to every layer.
    pub fn apply_theme(&mut self, theme: &UiTheme)
        ensures
            final(self)@ == (UiView {
                layers: old(self)@.layers.map_values(|v: AppLayerView| AppLayer::themed(v, *theme)),
                ..old(self)@
            }),
    {
        self.layers.apply_theme(theme);
    }

    /// Gives the focus to every layer or takes it from every layer, as
    /// when the window of the terminal gets or loses the focus.
    pub fn broadcast_focus(&mut self, value: bool)
        ensures
            final(self)@ == (UiView {
                layers: old(self)@.layers.map_values(|v: AppLayerView| AppLayer::with_focus(v, value)),
                ..old(self)@
            }),
    {
        self.layers.broadcast_focus(value);
    }

    /// Asks for a box that tells of a failed request.
    fn report(&mut self, what: &str, error: &RestClientError)
        ensures
            final(self)@ == (UiView { waiting: old(self)@.waiting.push(failure_box(what@, *error)), ..old(self)@ }),
    {
        let mut text = what.to_owned();
        text.append(error.to_string().as_str());
        UiEventSender::new().send_add_layer_event(
            &mut self.ui_events_manager,
            AppLayer::MessageBox(UiMessageBox::err("Exercises", text)),
        );
    }

    /// Tells the editor on top of the stack, if there is one, how storing
    /// its exercise went.
    fn tell_editor(&mut self, outcome: &std::result::Result<(), String>)
        ensures
            final(self)@ == (UiView {
                layers: final(self)@.layers,
                waiting: final(self)@.waiting,
                ..old(self)@
            }),
            old(self)@.layers.len() > 0 && old(self)@.layers.last() is ExerciseEditor ==> {
                let answer = old(self)@.layers.last()->ExerciseEditor_0.replied(outcome_view(outcome));
                &&& final(self)@.layers == old(self)@.layers.update(
                    old(self)@.layers.len() - 1,
                    AppLayerView::ExerciseEditor(answer.state),
                )
                &&& final(self)@.waiting == old(self)@.waiting + answer.emitted
            },
            !(old(self)@.layers.len() > 0 && old(self)@.layers.last() is ExerciseEditor) ==> final(self)@ == old(self)@,
    {
        match self.layers.top() {
            Some(AppLayer::ExerciseEditor(editor)) => {
                editor.on_reply(outcome, &mut self.ui_events_manager);
            },
            _ => {
                assert(pending(&self.ui_events_manager) == pending(&old(self).ui_events_manager));
            },
        }
        proof {
            if !(old(self)@.layers.len() > 0 && old(self)@.layers.last() is ExerciseEditor) {
                assert(self@.layers =~= old(self)@.layers);
            }
        }
    }

    /// Takes in what the server answered to a piece of work: the cache
    /// follows the answer, a failure is shown, and the editor on top of the
    /// stack learns how storing its exercise went.
    pub fn complete(&mut self, reply: ControllerReply)
        ensures
            final(self)@ == (UiView {
                db: replied_db(old(self)@.db, reply),
                layers: replied_stack(old(self)@.layers, reply).state,
                waiting: old(self)@.waiting + replied_stack(old(self)@.layers, reply).emitted,
                ..old(self)@
            }),
    {
        let kind = reply.kind();
        let outcome = self.controller.take(reply);
        match kind {
            ReplyKind::Loaded => {
                match outcome {
                    Err(error) => self.report("Can`t get all exercises:\n", &error),
                    Ok(_) => {},
                }
            },
            ReplyKind::Removed => {
                match outcome {
                    Err(error) => self.report("Can`t remove exercise:\n", &error),
                    Ok(_) => {},
                }
            },
            _ => {
                let told = match outcome {
                    Ok(_) => Ok(()),
                    Err(error) => Err(error.to_string()),
                };
                self.tell_editor(&told);
            },
        }
        assert(self@.waiting =~= old(self)@.waiting + replied_stack(old(self)@.layers, reply).emitted);
    }
}

} // verus!
