//! The shell around the katas: which view is shown, what each thing the
//! player does leads to, and how the katas' counters are restored from and
//! recorded in the saved record.
//!
//! The shell draws nothing. Whoever draws it reports what the player did as
//! an [`Event`] and carries out the [`Action`] that comes back.

use vstd::prelude::*;
use vstd::view::View as _;

use crate::games::crypto_puzzle::CryptoPuzzle;
use crate::games::greek_alphabet::GreekAlphabet;
use crate::games::math_tricks::MathTricks;
use crate::games::music_tempo::MusicTempo;
use crate::games::periodic_table::PeriodicTable;
use crate::games::physics_formulas::PhysicsFormulas;
use crate::games::pi_challenge::PiChallenge;
use crate::games::{can_update, GameModule, GameState, GameStateView, Module};
use crate::storage::{SaveData, Settings, Storage, Theme};

verus! {

/// The number of built-in katas.
pub const MODULE_COUNT: usize = 7;

/// The views of the shell.
#[derive(Clone, Copy, Debug, PartialEq, Eq, Structural)]
pub enum View {
    MainMenu,
    Game(usize),
    Settings,
    Scoreboard,
}

/// What the player can do in one of the views.
#[derive(Debug)]
pub enum Event {
    /// Main menu: the button of the kata at this place in the list.
    Select(usize),
    /// Main menu: the settings button.
    OpenSettings,
    /// Main menu: the scoreboard button.
    OpenScoreboard,
    /// Main menu: the exit button.
    Exit,
    /// Game: what the kata's own widgets report of a frame, the text now in
    /// the answer field and whether the check button was pressed.
    Update { text: String, check: bool },
    /// Game: the reset button.
    Reset,
    /// Game: the button that returns to the menu.
    Return,
    /// Settings: the sound box was set.
    SetAudio(bool),
    /// Settings: a theme was selected.
    SetTheme(Theme),
    /// Settings, scoreboard, or a game view without a kata: the back button.
    Back,
}

/// What the shell asks of the window after an event.
#[derive(Clone, Copy, Debug, PartialEq, Eq, Structural)]
pub enum Action {
    /// Go on drawing.
    Continue,
    /// Close the window.
    Close,
}

/// The view that `event` leads to from `view`, in a shell of `count` katas.
/// An event that the view does not offer leads nowhere.
pub open spec fn next_view(view: View, event: Event, count: int) -> View {
    match view {
        View::MainMenu => match event {
            Event::Select(index) => View::Game(index),
            Event::OpenSettings => View::Settings,
            Event::OpenScoreboard => View::Scoreboard,
            _ => view,
        },
        View::Game(index) => if index < count {
            match event {
                Event::Return => View::MainMenu,
                _ => view,
            }
        } else {
            match event {
                Event::Back => View::MainMenu,
                _ => view,
            }
        },
        View::Settings => match event {
            Event::Back => View::MainMenu,
            _ => view,
        },
        View::Scoreboard => match event {
            Event::Back => View::MainMenu,
            _ => view,
        },
    }
}

/// What `event` in `view` asks of the window: only the exit button of the
/// main menu closes it.
pub open spec fn action_for(view: View, event: Event) -> Action {
    if view is MainMenu && event is Exit {
        Action::Close
    } else {
        Action::Continue
    }
}

/// The settings after `event` in `view`: only the settings view changes them.
pub open spec fn next_settings(view: View, settings: Settings, event: Event) -> Settings {
    if view is Settings {
        match event {
            Event::SetAudio(on) => Settings { audio_enabled: on, theme: settings.theme },
            Event::SetTheme(theme) => Settings { audio_enabled: settings.audio_enabled, theme },
            _ => settings,
        }
    } else {
        settings
    }
}

/// Whether `after` is what `event` makes of the kata `before`, when its game
/// view is shown.
pub open spec fn module_step(before: Module, event: Event, after: Module) -> bool {
    match event {
        Event::Update { text, check } => if check {
            &&& after.position() == before.position()
            &&& after.title() == before.title()
            &&& after.counters() == before.counters().after_round(
                Module::reward_for(before.puzzle(), text@),
            )
            &&& after.entry() == Seq::<char>::empty()
        } else {
            &&& after.position() == before.position()
            &&& after.title() == before.title()
            &&& after.puzzle() == before.puzzle()
            &&& after.counters() == before.counters()
            &&& after.entry() == text@
        },
        Event::Reset => {
            &&& after.position() == before.position()
            &&& after.title() == before.title()
            &&& after.counters() == if before.position() == 0 {
                before.counters().zeroed()
            } else {
                before.counters()
            }
            &&& after.entry() == Seq::<char>::empty()
        },
        _ => after == before,
    }
}

/// From the main menu every other view is one event away, and from every
/// other view the main menu is one event away. The exit button leads to no
/// view: it closes the window.
pub proof fn lemma_views_reachable_and_reversible(target: View, count: int)
    requires
        target != View::MainMenu,
    ensures
        exists|event: Event| #[trigger] next_view(View::MainMenu, event, count) == target,
        exists|event: Event| #[trigger] next_view(target, event, count) == View::MainMenu,
        forall|view: View| #[trigger] next_view(view, Event::Exit, count) == view,
        action_for(View::MainMenu, Event::Exit) == Action::Close,
{
    match target {
        View::Game(index) => {
            assert(next_view(View::MainMenu, Event::Select(index), count) == target);
            if index < count {
                assert(next_view(target, Event::Return, count) == View::MainMenu);
            } else {
                assert(next_view(target, Event::Back, count) == View::MainMenu);
            }
        },
        View::Settings => {
            assert(next_view(View::MainMenu, Event::OpenSettings, count) == target);
            assert(next_view(target, Event::Back, count) == View::MainMenu);
        },
        View::Scoreboard => {
            assert(next_view(View::MainMenu, Event::OpenScoreboard, count) == target);
            assert(next_view(target, Event::Back, count) == View::MainMenu);
        },
        View::MainMenu => {},
    }
}

/// The counters that the kata at `i` has after hydration from `scores`: the
/// saved entry at `i`, or fresh counters where the record has none.
pub open spec fn hydrated(scores: Seq<GameState>, i: int) -> GameStateView {
    if 0 <= i < scores.len() {
        scores[i]@
    } else {
        GameStateView::fresh()
    }
}

/// The shell: where the record is kept, the record as loaded, the view
/// shown, and the katas in their fixed order.
#[derive(Debug)]
pub struct App {
    pub storage: Storage,
    pub data: SaveData,
    pub view: View,
    pub modules: Vec<Module>,
}

impl App {
    /// Whether every kata of the list poses a puzzle of its kind.
    pub open spec fn well_formed(&self) -> bool {
        forall|i: int| 0 <= i < self.modules@.len() ==> (#[trigger] self.modules@[i]).well_formed()
    }

    /// Whether `event` can be handled without a counter leaving `i32`: a
    /// frame with the check button pressed, in the game view of a kata,
    /// needs room for one more round.
    pub open spec fn accepts(&self, event: Event) -> bool {
        match (self.view, event) {
            (View::Game(index), Event::Update { text, check }) => index < self.modules@.len()
                && check ==> self.modules@[index as int].counters().has_room_for(
                Module::reward_for(self.modules@[index as int].puzzle(), text@),
            ),
            _ => true,
        }
    }

    /// A shell on the main menu with the seven katas in their order, each
    /// with a puzzle of its own and with the counters that `data`, the
    /// record as loaded, holds for its place.
    pub fn new(storage: Storage, data: SaveData) -> (r: Self)
        ensures
            r.well_formed(),
            r.view == View::MainMenu,
            r.storage == storage,
            r.data.settings == data.settings,
            r.modules@.len() == MODULE_COUNT,
            r.data.scores@.len() == MODULE_COUNT,
            forall|i: int|
                0 <= i < MODULE_COUNT ==> {
                    &&& (#[trigger] r.modules@[i]).position() == i
                    &&& r.modules@[i].counters() == hydrated(data.scores@, i)
                    &&& r.data.scores@[i]@ == hydrated(data.scores@, i)
                    &&& r.modules@[i].entry() == Seq::<char>::empty()
                },
    {
        let mut modules: Vec<Module> = Vec::new();
        modules.push(Module::Pi(PiChallenge::new()));
        modules.push(Module::Greek(GreekAlphabet::new()));
        modules.push(Module::Tempo(MusicTempo::new()));
        modules.push(Module::Math(MathTricks::new()));
        modules.push(Module::Physics(PhysicsFormulas::new()));
        modules.push(Module::Elements(PeriodicTable::new()));
        modules.push(Module::Crypto(CryptoPuzzle::new()));
        let mut app = Self { storage, data, view: View::MainMenu, modules };
        app.hydrate_scores();
        app
    }

    /// Brings the record to the length of the list, cutting it or filling it
    /// up with fresh counters, and gives every kata the counters at its
    /// place. Puzzles and answer fields stay as they are.
    pub fn hydrate_scores(&mut self)
        ensures
            final(self).view == old(self).view,
            final(self).storage == old(self).storage,
            final(self).data.settings == old(self).data.settings,
            final(self).modules@.len() == old(self).modules@.len(),
            final(self).data.scores@.len() == old(self).modules@.len(),
            forall|i: int|
                0 <= i < old(self).modules@.len() ==> {
                    &&& (#[trigger] final(self).modules@[i]).counters() == hydrated(
                        old(self).data.scores@,
                        i,
                    )
                    &&& final(self).data.scores@[i]@ == hydrated(old(self).data.scores@, i)
                    &&& final(self).modules@[i].position() == old(self).modules@[i].position()
                    &&& final(self).modules@[i].title() == old(self).modules@[i].title()
                    &&& final(self).modules@[i].puzzle() == old(self).modules@[i].puzzle()
                    &&& final(self).modules@[i].entry() == old(self).modules@[i].entry()
                    &&& final(self).modules@[i].well_formed() == old(
                        self,
                    ).modules@[i].well_formed()
                },
    {
        let count = self.modules.len();
        if self.data.scores.len() != count {
            self.data.scores.resize(count, GameState::default());
        }
        let mut i: usize = 0;
        while i < count
            invariant
                i <= count,
                count == old(self).modules@.len(),
                self.modules@.len() == count,
                self.data.scores@.len() == count,
                self.view == old(self).view,
                self.storage == old(self).storage,
                self.data.settings == old(self).data.settings,
                forall|j: int|
                    0 <= j < count ==> (#[trigger] self.data.scores@[j])@ == hydrated(
                        old(self).data.scores@,
                        j,
                    ),
                forall|j: int|
                    0 <= j < i ==> (#[trigger] self.modules@[j]).counters() == hydrated(
                        old(self).data.scores@,
                        j,
                    ),
                forall|j: int|
                    0 <= j < count ==> {
                        &&& (#[trigger] self.modules@[j]).position() == old(
                            self,
                        ).modules@[j].position()
                        &&& self.modules@[j].title() == old(self).modules@[j].title()
                        &&& self.modules@[j].puzzle() == old(self).modules@[j].puzzle()
                        &&& self.modules@[j].entry() == old(self).modules@[j].entry()
                        &&& self.modules@[j].well_formed() == old(self).modules@[j].well_formed()
                    },
            decreases count - i,
        {
            let saved = self.data.scores[i].clone();
            *self.modules[i].state_mut() = saved;
            i += 1;
        }
    }

    /// Records every kata's counters in `data`, place by place, ready to be
    /// written out. The katas stay as they are.
    pub fn save(&mut self)
        ensures
            final(self).view == old(self).view,
            final(self).storage == old(self).storage,
            final(self).modules == old(self).modules,
            final(self).data.settings == old(self).data.settings,
            final(self).data.scores@.len() == old(self).modules@.len(),
            forall|i: int|
                0 <= i < old(self).modules@.len() ==> (#[trigger] final(self).data.scores@[i])@
                    == old(self).modules@[i].counters(),
    {
        let mut scores: Vec<GameState> = Vec::new();
        let mut i: usize = 0;
        while i < self.modules.len()
            invariant
                i <= self.modules@.len(),
                *self == *old(self),
                scores@.len() == i,
                forall|j: int|
                    0 <= j < i ==> (#[trigger] scores@[j])@ == self.modules@[j].counters(),
            decreases self.modules@.len() - i,
        {
            scores.push(self.modules[i].state().clone());
            i += 1;
        }
        self.data.scores = scores;
    }

    /// Whether `event` can be handled without a counter leaving `i32`.
    pub fn can_handle(&self, event: &Event) -> (r: bool)
        requires
            self.well_formed(),
        ensures
            r == self.accepts(*event),
    {
        match self.view {
            View::Game(index) => {
                if index < self.modules.len() {
                    match event {
                        Event::Update { text, check } => can_update(
                            &self.modules[index],
                            text.as_str(),
                            *check,
                        ),
                        _ => true,
                    }
                } else {
                    true
                }
            },
            _ => true,
        }
    }

    /// Does what `event` asks for in the view shown: moves to another view,
    /// changes a setting, or hands the event to the kata whose game view is
    /// shown. Returns what the window is to do next.
    pub fn handle(&mut self, event: Event) -> (action: Action)
        requires
            old(self).well_formed(),
            old(self).accepts(event),
        ensures
            final(self).well_formed(),
            action == action_for(old(self).view, event),
            final(self).view == next_view(old(self).view, event, old(self).modules@.len() as int),
            final(self).storage == old(self).storage,
            final(self).data.scores == old(self).data.scores,
            final(self).data.settings == next_settings(
                old(self).view,
                old(self).data.settings,
                event,
            ),
            final(self).modules@.len() == old(self).modules@.len(),
            forall|i: int|
                0 <= i < old(self).modules@.len() && old(self).view != View::Game(i as usize)
                    ==> #[trigger] final(self).modules@[i] == old(self).modules@[i],
            forall|i: int|
                0 <= i < old(self).modules@.len() && old(self).view == View::Game(i as usize)
                    ==> module_step(old(self).modules@[i], event, #[trigger] final(self).modules@[i]),
    {
        match self.view {
            View::MainMenu => match event {
                Event::Select(index) => {
                    self.view = View::Game(index);
                    Action::Continue
                },
                Event::OpenSettings => {
                    self.view = View::Settings;
                    Action::Continue
                },
                Event::OpenScoreboard => {
                    self.view = View::Scoreboard;
                    Action::Continue
                },
                Event::Exit => Action::Close,
                _ => Action::Continue,
            },
            View::Game(index) => {
                if index < self.modules.len() {
                    match event {
                        Event::Update { text, check } => self.modules[index].update(text, check),
                        Event::Reset => self.modules[index].reset(),
                        Event::Return => {
                            self.view = View::MainMenu;
                        },
                        _ => {},
                    }
                } else {
                    match event {
                        Event::Back => {
                            self.view = View::MainMenu;
                        },
                        _ => {},
                    }
                }
                Action::Continue
            },
            View::Settings => {
                match event {
                    Event::SetAudio(on) => {
                        self.data.settings.audio_enabled = on;
                    },
                    Event::SetTheme(theme) => {
                        self.data.settings.theme = theme;
                    },
                    Event::Back => {
                        self.view = View::MainMenu;
                    },
                    _ => {},
                }
                Action::Continue
            },
            View::Scoreboard => {
                match event {
                    Event::Back => {
                        self.view = View::MainMenu;
                    },
                    _ => {},
                }
                Action::Continue
            },
        }
    }
}

} // verus!
