//! The application: the driver, the inputs that wait for it, and what
//! happens to an input that no layer wants.

use vstd::prelude::*;
use crate::app_layer::{AppLayer, AppLayerView};
use crate::component::{Component, TerminalEvent};
use crate::config::KeyMap;
use crate::controller::{Controller, ControllerReply};
use crate::event_dispatcher::KeyEvent;
use crate::events::Events;
use crate::layer::{delivery, joined, stack_paints, swept};
use crate::render::{RenderFrame, RenderOpView};
use crate::theme::UiTheme;
use crate::main_ui_layer::MainUiLayerView;
use crate::ui::{Ui, UiView, background, drained, event_views, raised};
use crate::ui_events::UiEvent;

verus! {

/// The application.
pub struct App {
    events_manager: Events<TerminalEvent>,
    need_quit: bool,
    is_focused: bool,
    ui: Ui,
    keymap: KeyMap,
}

/// The mathematical value of an `App`.
pub ghost struct AppView {
    /// The inputs that wait to be processed, oldest first.
    pub inputs: Seq<TerminalEvent>,
    pub need_quit: bool,
    /// Whether the window of the terminal has the focus.
    pub is_focused: bool,
    pub ui: UiView,
    pub keymap: KeyMap,
}

impl View for App {
    type V = AppView;

    closed spec fn view(&self) -> AppView {
        AppView {
            inputs: self.events_manager@,
            need_quit: self.need_quit,
            is_focused: self.is_focused,
            ui: self.ui@,
            keymap: self.keymap,
        }
    }
}

/// Whether an input that no layer consumed asks the application to quit:
/// it is the character of the quit key.
pub open spec fn quits(keymap: KeyMap, event: TerminalEvent) -> bool {
    event matches TerminalEvent::Key(KeyEvent::Char(c)) && c == keymap.quit
}

/// The application after the first `n` of `inputs` are processed in their
/// order. An input that tells of the focus of the window sets the focus of
/// the application. Every input is offered to the stack; if no layer
/// consumes it and it is the quit key, the application is to quit.
pub open spec fn processed(v: AppView, inputs: Seq<TerminalEvent>, n: int) -> AppView
    decreases n,
{
    if n <= 0 {
        AppView { inputs: Seq::empty(), ..v }
    } else {
        let before = processed(v, inputs, n - 1);
        let event = inputs[n - 1];
        let answer = delivery::<AppLayer>(before.ui.layers, before.ui.layers.len() as int, event, before.ui.db);
        AppView {
            is_focused: match event {
                TerminalEvent::FocusGained => true,
                TerminalEvent::FocusLost => false,
                _ => before.is_focused,
            },
            need_quit: before.need_quit || (!answer.consumed && quits(v.keymap, event)),
            ui: UiView { layers: answer.state, waiting: before.ui.waiting + answer.emitted, ..before.ui },
            ..before
        }
    }
}

impl App {
    /// An application that has the focus and is not to quit, without
    /// waiting inputs.
    pub fn new(controller: Controller, keymap: KeyMap) -> (app: Self)
        ensures
            app@ == (AppView {
                inputs: Seq::empty(),
                need_quit: false,
                is_focused: true,
                ui: UiView {
                    need_stop: false,
                    waiting: Seq::empty(),
                    layers: seq![raised(AppLayerView::Main(MainUiLayerView::fresh()))],
                    db: controller@.db,
                    key_map: controller@.key_map,
                    account: controller@.account,
                },
                keymap,
            }),
    {
        Self { need_quit: false, is_focused: true, keymap, ui: Ui::new(controller), events_manager: Events::default() }
    }

    /// Whether the application is to quit.
    pub fn need_quit(&self) -> (quit: bool)
        ensures
            quit == self@.need_quit,
    {
        self.need_quit
    }

    /// Whether the window of the terminal has the focus.
    pub fn is_focused(&self) -> (focused: bool)
        ensures
            focused == self@.is_focused,
    {
        self.is_focused
    }

    /// The driver.
    pub fn ui(&self) -> (ui: &Ui)
        ensures
            ui@ == self@.ui,
    {
        &self.ui
    }

    /// Puts an input behind the waiting ones.
    pub fn add_event(&mut self, event: TerminalEvent)
        ensures
            final(self)@ == (AppView { inputs: old(self)@.inputs.push(event), ..old(self)@ }),
    {
        self.events_manager.add_event(event);
    }

    /// Hands `theme` to every layer.
    pub fn apply_theme(&mut self, theme: &UiTheme)
        ensures
            final(self)@ == (AppView {
                ui: UiView {
                    layers: old(self)@.ui.layers.map_values(|v: AppLayerView| AppLayer::themed(v, *theme)),
                    ..old(self)@.ui
                },
                ..old(self)@
            }),
    {
        self.ui.apply_theme(theme);
    }

    /// Takes in what the server answered to a piece of work.
    pub fn complete(&mut self, reply: ControllerReply)
        ensures
            final(self)@ == (AppView {
                ui: UiView {
                    db: crate::controller::replied_db(old(self)@.ui.db, reply),
                    layers: crate::ui::replied_stack(old(self)@.ui.layers, reply).state,
                    waiting: old(self)@.ui.waiting + crate::ui::replied_stack(old(self)@.ui.layers, reply).emitted,
                    ..old(self)@.ui
                },
                ..old(self)@
            }),
    {
        self.ui.complete(reply);
    }

    /// The quit key was pressed, or another character that no layer
    /// consumed.
    fn on_key(&mut self, c: char)
        ensures
            final(self)@ == (AppView { need_quit: old(self)@.need_quit || c == old(self)@.keymap.quit, ..old(self)@ }),
    {
        if c == self.keymap.quit {
            self.need_quit = true;
        }
    }

    /// The input pass: processes the waiting inputs in the order in which
    /// they came.
    pub fn process_events(&mut self)
        ensures
            final(self)@ == processed(old(self)@, old(self)@.inputs, old(self)@.inputs.len() as int),
    {
        let mut events = self.events_manager.get_all();
        let ghost all = events@;
        let ghost mut done: int = 0;
        assert(self@ == processed(old(self)@, all, 0));
        while events.len() > 0
            invariant
                0 <= done <= all.len(),
                all == old(self)@.inputs,
                events@ == all.skip(done),
                self@.keymap == old(self)@.keymap,
                self@ == processed(old(self)@, all, done),
            decreases events@.len(),
        {
            let ghost before = self@;
            let event = events.pop_front().unwrap();
            proof {
                assert(event == all[done]);
                assert(events@ =~= all.skip(done + 1));
            }
            match event {
                TerminalEvent::FocusGained => self.is_focused = true,
                TerminalEvent::FocusLost => self.is_focused = false,
                _ => {},
            }
            if !self.ui.send_term_event(&event) {
                if let TerminalEvent::Key(key) = event {
                    match key {
                        KeyEvent::Char(c) => self.on_key(c),
                        _ => {},
                    }
                }
            }
            proof {
                let answer = delivery::<AppLayer>(before.ui.layers, before.ui.layers.len() as int, event, before.ui.db);
                let after = processed(old(self)@, all, done + 1);
                assert(before.keymap == old(self)@.keymap);
                assert(self@.ui.layers == answer.state);
                assert(self@.ui.waiting == before.ui.waiting + answer.emitted);
                assert(self@.ui == after.ui);
                assert(self@.is_focused == after.is_focused);
                assert(self@.need_quit == after.need_quit);
                assert(self@.inputs == after.inputs);
                assert(self@.keymap == after.keymap);
                done = done + 1;
            }
        }
    }

    /// One tick. While the window has the focus, the frame is painted
    /// first; then the waiting inputs are processed; then, if the window had
    /// the focus, the bus is drained and the stack is swept. The events of
    /// the bus that are not for the stack are handed back.
    pub fn tick(&mut self, f: &mut RenderFrame) -> (passed_on: Vec<UiEvent>)
        ensures
            final(f)@.size == old(f)@.size,
            !old(self)@.is_focused ==> final(f)@ == old(f)@,
            old(self)@.is_focused ==> exists|parts: Seq<Seq<RenderOpView>>| #[trigger]
                stack_paints::<AppLayer>(old(self)@.ui.layers, old(f)@.size, old(self)@.ui.db, parts) && final(f)@.ops
                    == old(f)@.ops.push(RenderOpView::Block { area: old(f)@.size, block: background() }) + joined(
                    parts,
                    parts.len() as int,
                ),
            ({
                let input = processed(old(self)@, old(self)@.inputs, old(self)@.inputs.len() as int);
                let drain = drained(input.ui.layers, input.ui.waiting, input.ui.waiting.len() as int);
                if old(self)@.is_focused {
                    &&& final(self)@ == (AppView {
                        ui: UiView {
                            layers: swept::<AppLayer>(drain.layers, drain.layers.len() as int),
                            waiting: Seq::empty(),
                            ..input.ui
                        },
                        ..input
                    })
                    &&& event_views(passed_on@) == drain.passed_on
                } else {
                    &&& final(self)@ == input
                    &&& passed_on@ == Seq::<UiEvent>::empty()
                }
            }),
    {
        let focused = self.is_focused;
        if focused {
            self.ui.draw(f);
        }
        self.process_events();
        if focused {
            let passed_on = self.ui.process_events();
            self.ui.clean();
            passed_on
        } else {
            Vec::new()
        }
    }
}

} // verus!
