use memorykata::games::{can_check, GameModule, GameState, Module};
use memorykata::storage::{SaveData, Settings, Storage, Theme};
use memorykata::ui::{Action, App, Event, View, MODULE_COUNT};
use std::path::PathBuf;

const NAMES: [&str; 7] = [
    "Π Challenge",
    "Greek Alphabet",
    "Music Tempo",
    "Math Tricks",
    "Physics Formulas",
    "Periodic Table",
    "Crypto Puzzle",
];

fn saved(score: i32, attempts: i32, description: &str) -> GameState {
    GameState { score, attempts, description: String::from(description) }
}

fn shell_with(scores: Vec<GameState>) -> App {
    let data = SaveData { scores, settings: Settings::default() };
    App::new(Storage::new(PathBuf::from("save.json")), data)
}

fn typed(text: &str, check: bool) -> Event {
    Event::Update { text: String::from(text), check }
}

fn counters(app: &App) -> Vec<(i32, i32, String)> {
    app.modules
        .iter()
        .map(|m| (m.state().score, m.state().attempts, m.state().description.clone()))
        .collect()
}

#[test]
fn game_state_default_is_blank() {
    let state = GameState::default();
    assert_eq!(state.score, 0);
    assert_eq!(state.attempts, 0);
    assert_eq!(state.description, "");
}

#[test]
fn game_state_clone_is_equal() {
    let state = saved(-3, 8, "kept");
    let copy = state.clone();
    assert_eq!((copy.score, copy.attempts, copy.description.as_str()), (-3, 8, "kept"));
}

#[test]
fn game_state_round_counts_and_adds() {
    let mut state = saved(10, 2, "d");
    state.record_round(-1);
    state.record_round(5);
    assert_eq!((state.score, state.attempts, state.description.as_str()), (14, 4, "d"));
}

#[test]
fn game_state_room_for_a_round() {
    assert!(saved(0, 0, "").has_room_for(5));
    assert!(saved(i32::MAX - 5, 0, "").has_room_for(5));
    assert!(!saved(i32::MAX - 4, 0, "").has_room_for(5));
    assert!(saved(i32::MIN + 1, 0, "").has_room_for(-1));
    assert!(!saved(i32::MIN, 0, "").has_room_for(-1));
    assert!(saved(0, i32::MAX - 1, "").has_room_for(0));
    assert!(!saved(0, i32::MAX, "").has_room_for(0));
    assert!(saved(0, -7, "").has_room_for(0));
}

#[test]
fn settings_default_is_sound_on_and_light() {
    let settings = Settings::default();
    assert!(settings.audio_enabled);
    assert_eq!(settings.theme, Theme::Light);
}

#[test]
fn save_data_default_is_empty() {
    let data = SaveData::default();
    assert!(data.scores.is_empty());
    assert_eq!(data.settings, Settings::default());
}

#[test]
fn storage_keeps_its_path() {
    let storage = Storage::new(PathBuf::from("/home/kata/.memorykata/save.json"));
    assert_eq!(storage.path, PathBuf::from("/home/kata/.memorykata/save.json"));
}

#[test]
fn load_keeps_what_was_read() {
    let storage = Storage::new(PathBuf::from("save.json"));
    let read = SaveData {
        scores: vec![saved(4, 2, "kept")],
        settings: Settings { audio_enabled: false, theme: Theme::Dark },
    };
    let data = storage.load(Some(read));
    assert_eq!(data.scores.len(), 1);
    assert_eq!((data.scores[0].score, data.scores[0].attempts), (4, 2));
    assert_eq!(data.scores[0].description, "kept");
    assert_eq!(data.settings, Settings { audio_enabled: false, theme: Theme::Dark });
}

#[test]
fn load_falls_back_to_the_default_record() {
    let storage = Storage::new(PathBuf::from("/nowhere/save.json"));
    let data = storage.load(None);
    assert!(data.scores.is_empty());
    assert_eq!(data.settings, Settings { audio_enabled: true, theme: Theme::Light });
}

#[test]
fn shell_starts_on_the_menu_with_seven_katas_in_order() {
    let app = shell_with(Vec::new());
    assert_eq!(MODULE_COUNT, 7);
    assert_eq!(app.view, View::MainMenu);
    assert_eq!(app.modules.len(), 7);
    let names: Vec<&str> = app.modules.iter().map(|m| m.name()).collect();
    assert_eq!(names, NAMES);
    assert!(matches!(app.modules[0], Module::Pi(_)));
    assert!(matches!(app.modules[1], Module::Greek(_)));
    assert!(matches!(app.modules[2], Module::Tempo(_)));
    assert!(matches!(app.modules[3], Module::Math(_)));
    assert!(matches!(app.modules[4], Module::Physics(_)));
    assert!(matches!(app.modules[5], Module::Elements(_)));
    assert!(matches!(app.modules[6], Module::Crypto(_)));
    assert_eq!(app.storage.path, PathBuf::from("save.json"));
}

#[test]
fn hydration_from_an_empty_record_gives_blank_counters() {
    let mut app = shell_with(Vec::new());
    assert_eq!(app.data.scores.len(), 7);
    for module in &app.modules {
        assert_eq!(module.state().score, 0);
        assert_eq!(module.state().attempts, 0);
        assert_eq!(module.state().description, "");
        assert_eq!(module.description(), "");
    }
    app.save();
    assert_eq!(app.data.scores.len(), 7);
    for entry in &app.data.scores {
        assert_eq!((entry.score, entry.attempts, entry.description.as_str()), (0, 0, ""));
    }
    assert_eq!(app.data.settings, Settings { audio_enabled: true, theme: Theme::Light });
}

#[test]
fn hydration_from_a_short_record_pads_with_blank_counters() {
    let app = shell_with(vec![saved(5, 1, "pi"), saved(-2, 4, "greek"), saved(9, 9, "tempo")]);
    assert_eq!(
        counters(&app),
        vec![
            (5, 1, String::from("pi")),
            (-2, 4, String::from("greek")),
            (9, 9, String::from("tempo")),
            (0, 0, String::new()),
            (0, 0, String::new()),
            (0, 0, String::new()),
            (0, 0, String::new()),
        ]
    );
    assert_eq!(app.data.scores.len(), 7);
    assert_eq!(app.data.scores[2].score, 9);
    assert_eq!(app.data.scores[3].score, 0);
}

#[test]
fn hydration_from_a_long_record_cuts_it() {
    let scores: Vec<GameState> = (0..9).map(|i| saved(i * 10, i, "saved")).collect();
    let mut app = shell_with(scores);
    assert_eq!(app.modules.len(), 7);
    assert_eq!(app.data.scores.len(), 7);
    for (i, module) in app.modules.iter().enumerate() {
        assert_eq!(module.state().score, i as i32 * 10);
        assert_eq!(module.state().attempts, i as i32);
        assert_eq!(module.description(), "saved");
    }
    app.save();
    assert_eq!(app.data.scores.len(), 7);
    assert_eq!(app.data.scores[6].score, 60);
}

#[test]
fn hydration_from_a_full_record_restores_every_kata() {
    let scores: Vec<GameState> = (0..7).map(|i| saved(-i, 2 * i, NAMES[i as usize])).collect();
    let app = shell_with(scores);
    for (i, module) in app.modules.iter().enumerate() {
        assert_eq!(module.state().score, -(i as i32));
        assert_eq!(module.state().attempts, 2 * i as i32);
        assert_eq!(module.description(), NAMES[i]);
        assert_eq!(module.name(), NAMES[i]);
        assert_eq!(module.answer(), "");
    }
}

#[test]
fn hydration_keeps_the_settings() {
    let data = SaveData {
        scores: Vec::new(),
        settings: Settings { audio_enabled: false, theme: Theme::Dark },
    };
    let app = App::new(Storage::new(PathBuf::from(".")), data);
    assert_eq!(app.data.settings, Settings { audio_enabled: false, theme: Theme::Dark });
}

#[test]
fn hydrate_again_after_the_record_changed() {
    let mut app = shell_with(Vec::new());
    app.data.scores = vec![saved(1, 1, "a")];
    app.hydrate_scores();
    assert_eq!(app.data.scores.len(), 7);
    assert_eq!(app.modules[0].state().score, 1);
    assert_eq!(app.modules[0].description(), "a");
    assert_eq!(app.modules[1].state().score, 0);
    assert_eq!(app.view, View::MainMenu);
}

#[test]
fn save_records_the_counters_of_every_kata() {
    let mut app = shell_with(Vec::new());
    for (i, module) in app.modules.iter_mut().enumerate() {
        *module.state_mut() = saved(i as i32 + 1, 3, "x");
    }
    app.save();
    assert_eq!(app.data.scores.len(), 7);
    for (i, entry) in app.data.scores.iter().enumerate() {
        assert_eq!((entry.score, entry.attempts, entry.description.as_str()), (i as i32 + 1, 3, "x"));
    }
    assert_eq!(app.modules[4].state().score, 5);
}

#[test]
fn save_then_hydrate_gives_the_same_counters() {
    let mut app = shell_with(vec![saved(3, 1, "one"), saved(4, 2, "two")]);
    app.save();
    let record = SaveData { scores: app.data.scores.clone(), settings: app.data.settings };
    let again = App::new(Storage::new(PathBuf::from("save.json")), record);
    assert_eq!(counters(&again), counters(&app));
}

#[test]
fn menu_leads_to_every_view_and_back() {
    let mut app = shell_with(Vec::new());
    for i in 0..7 {
        assert_eq!(app.handle(Event::Select(i)), Action::Continue);
        assert_eq!(app.view, View::Game(i));
        assert_eq!(app.handle(Event::Return), Action::Continue);
        assert_eq!(app.view, View::MainMenu);
    }
    assert_eq!(app.handle(Event::OpenSettings), Action::Continue);
    assert_eq!(app.view, View::Settings);
    assert_eq!(app.handle(Event::Back), Action::Continue);
    assert_eq!(app.view, View::MainMenu);
    assert_eq!(app.handle(Event::OpenScoreboard), Action::Continue);
    assert_eq!(app.view, View::Scoreboard);
    assert_eq!(app.handle(Event::Back), Action::Continue);
    assert_eq!(app.view, View::MainMenu);
}

#[test]
fn exit_closes_from_the_menu_only() {
    let mut app = shell_with(Vec::new());
    assert_eq!(app.handle(Event::Exit), Action::Close);
    assert_eq!(app.view, View::MainMenu);
    app.handle(Event::OpenSettings);
    assert_eq!(app.handle(Event::Exit), Action::Continue);
    assert_eq!(app.view, View::Settings);
    app.handle(Event::Back);
    app.handle(Event::Select(0));
    assert_eq!(app.handle(Event::Exit), Action::Continue);
    assert_eq!(app.view, View::Game(0));
}

#[test]
fn events_that_a_view_does_not_offer_change_nothing() {
    let mut app = shell_with(Vec::new());
    for event in [Event::Back, Event::Return, Event::Reset, typed("x", true), Event::SetAudio(false), Event::SetTheme(Theme::Dark)] {
        assert_eq!(app.handle(event), Action::Continue);
        assert_eq!(app.view, View::MainMenu);
    }
    assert_eq!(app.handle(Event::Update { text: String::from("x"), check: false }), Action::Continue);
    assert_eq!(app.data.settings, Settings::default());
    assert!(app.modules.iter().all(|m| m.answer().is_empty() && m.state().attempts == 0));
    app.handle(Event::OpenScoreboard);
    for event in [Event::Select(1), Event::OpenSettings, Event::Return, typed("x", true), Event::SetTheme(Theme::Dark)] {
        app.handle(event);
        assert_eq!(app.view, View::Scoreboard);
    }
    assert_eq!(app.data.settings, Settings::default());
    app.handle(Event::Back);
    app.handle(Event::Select(3));
    for event in [Event::Back, Event::Select(1), Event::OpenSettings, Event::OpenScoreboard, Event::SetAudio(false)] {
        app.handle(event);
        assert_eq!(app.view, View::Game(3));
    }
    assert_eq!(app.data.settings, Settings::default());
}

#[test]
fn a_game_view_without_a_kata_offers_back_only() {
    let mut app = shell_with(Vec::new());
    app.handle(Event::Select(7));
    assert_eq!(app.view, View::Game(7));
    for event in [typed("x", true), Event::Reset, Event::Return, typed("x", false)] {
        assert!(app.can_handle(&event));
        assert_eq!(app.handle(event), Action::Continue);
        assert_eq!(app.view, View::Game(7));
    }
    assert!(app.modules.iter().all(|m| m.answer().is_empty() && m.state().attempts == 0));
    assert_eq!(app.handle(Event::Back), Action::Continue);
    assert_eq!(app.view, View::MainMenu);
    app.handle(Event::Select(usize::MAX));
    assert_eq!(app.view, View::Game(usize::MAX));
    app.handle(Event::Back);
    assert_eq!(app.view, View::MainMenu);
}

#[test]
fn settings_view_sets_sound_and_theme() {
    let mut app = shell_with(Vec::new());
    app.handle(Event::OpenSettings);
    app.handle(Event::SetAudio(false));
    assert_eq!(app.data.settings, Settings { audio_enabled: false, theme: Theme::Light });
    app.handle(Event::SetTheme(Theme::Dark));
    assert_eq!(app.data.settings, Settings { audio_enabled: false, theme: Theme::Dark });
    app.handle(Event::SetAudio(true));
    app.handle(Event::SetTheme(Theme::Light));
    assert_eq!(app.data.settings, Settings::default());
    assert_eq!(app.view, View::Settings);
}

#[test]
fn typing_and_checking_reach_the_kata_shown() {
    let mut app = shell_with(Vec::new());
    app.handle(Event::Select(0));
    app.handle(Event::Update { text: String::from("31415"), check: false });
    assert_eq!(app.modules[0].answer(), "31415");
    let check = || Event::Update { text: String::from("31415"), check: true };
    assert!(app.can_handle(&check()));
    app.handle(check());
    assert_eq!(app.modules[0].state().score, 5);
    assert_eq!(app.modules[0].state().attempts, 1);
    assert_eq!(app.modules[0].answer(), "");
    for module in &app.modules[1..] {
        assert_eq!(module.state().attempts, 0);
        assert_eq!(module.answer(), "");
    }
    assert_eq!(app.view, View::Game(0));
    assert!(app.data.scores.iter().all(|s| s.score == 0 && s.attempts == 0));
}

#[test]
fn reset_in_a_game_view_zeroes_pi_only() {
    let scores: Vec<GameState> = (0..7).map(|_| saved(8, 2, "d")).collect();
    let mut app = shell_with(scores);
    for i in 0..7 {
        app.handle(Event::Select(i));
        app.handle(Event::Update { text: String::from("typed"), check: false });
        app.handle(Event::Reset);
        assert_eq!(app.view, View::Game(i));
        assert_eq!(app.modules[i].answer(), "");
        app.handle(Event::Return);
    }
    assert_eq!(counters(&app)[0], (0, 0, String::from("d")));
    for entry in &counters(&app)[1..] {
        assert_eq!(*entry, (8, 2, String::from("d")));
    }
}

#[test]
fn attempts_grow_by_one_for_every_kata_and_round() {
    let mut app = shell_with(Vec::new());
    for i in 0..7 {
        app.handle(Event::Select(i));
        for round in 1..=10 {
            assert!(app.can_handle(&Event::Update { text: String::from("42"), check: true }));
            app.handle(Event::Update { text: String::from("42"), check: true });
            assert_eq!(app.modules[i].state().attempts, round);
        }
        app.handle(Event::Return);
    }
}

#[test]
fn a_check_without_room_is_not_accepted() {
    let mut full = saved(0, i32::MAX, "");
    let mut app = shell_with(vec![full.clone()]);
    app.handle(Event::Select(0));
    assert!(!app.can_handle(&typed("3", true)));
    assert!(app.can_handle(&typed("3", false)));
    assert!(app.can_handle(&Event::Reset));
    assert!(app.can_handle(&Event::Return));
    assert!(!can_check(&app.modules[0]));
    full.attempts = 0;
    full.score = i32::MIN;
    let mut app = shell_with(vec![saved(0, 0, ""), full]);
    app.handle(Event::Select(1));
    assert!(app.can_handle(&typed("no letter", false)));
    assert!(!app.can_handle(&typed("no letter", true)));
    app.handle(Event::Return);
    assert!(app.can_handle(&typed("no letter", true)));
}

#[test]
fn module_dispatch_reaches_every_kind() {
    let mut app = shell_with(Vec::new());
    for module in app.modules.iter_mut() {
        module.set_answer(String::from("  ?  "));
        assert_eq!(module.answer(), "  ?  ");
        let reward = module.reward_of("  ?  ");
        assert!(reward == -1 || reward == 0);
        module.state_mut().description = String::from("mine");
        module.check_answer();
        assert_eq!(module.state().score, reward);
        assert_eq!(module.state().attempts, 1);
        assert_eq!(module.description(), "mine");
        assert_eq!(module.answer(), "");
    }
}

#[test]
fn a_cloned_kata_is_the_same_kata() {
    let mut app = shell_with((0..7).map(|i| saved(i, i + 1, "d")).collect());
    for module in app.modules.iter_mut() {
        module.set_answer(String::from("half"));
    }
    for module in &app.modules {
        let copy = module.clone();
        assert_eq!(copy.name(), module.name());
        assert_eq!(copy.answer(), "half");
        assert_eq!(copy.state().score, module.state().score);
        assert_eq!(copy.state().attempts, module.state().attempts);
        assert_eq!(copy.description(), "d");
        for entry in ["", "31415", "Alpha", "120", "17", "RUST", "Gold", "Ohm's Law"] {
            assert_eq!(copy.reward_of(entry), module.reward_of(entry));
        }
    }
}

#[test]
fn a_cloned_kata_plays_on_its_own() {
    let app = shell_with(Vec::new());
    let mut copy = app.modules[0].clone();
    copy.update(String::from("314"), true);
    assert_eq!(copy.state().score, 3);
    assert_eq!(app.modules[0].state().score, 0);
    assert_eq!(app.modules[0].state().attempts, 0);
}
