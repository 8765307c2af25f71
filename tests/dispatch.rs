use tunedeck::dispatcher::{accepts_action, accepts_event};
use tunedeck::{
    Action, ActionType, App, AudioOutput, Component, Effect, Event, EventType, Home, KeyCode,
    KeyPress, Keymap, LoopStep, Mode, SongList, Track,
};

/// An output that plays whatever it is given until stopped.
#[derive(Default)]
struct FakeOutput {
    playing: Option<String>,
    loads: Vec<String>,
}

impl AudioOutput for FakeOutput {
    fn stop(&mut self) {
        self.playing = None;
    }

    fn load(&mut self, name: &String, _ext: &String) -> bool {
        self.playing = None;
        self.loads.push(name.clone());
        self.playing = Some(name.clone());
        true
    }

    fn set_volume(&mut self, _percent: u8) {}

    fn is_running(&self) -> bool {
        self.playing.is_some()
    }
}

fn catalog(n: usize, secs: u64) -> Vec<Track> {
    (0..n).map(|i| Track::new(format!("track{i}"), "mp3".to_string(), secs)).collect()
}

fn keymap() -> Keymap {
    let mut km = Keymap::new();
    km.bind(Mode::Home, &vec![KeyPress::plain(KeyCode::Char('q'))], Action::Quit);
    km.bind(
        Mode::Home,
        &vec![KeyPress::plain(KeyCode::Char('g')), KeyPress::plain(KeyCode::Char('h'))],
        Action::Help,
    );
    km
}

fn home_of(app: &App<FakeOutput>) -> &Home<FakeOutput> {
    match &app.components()[0] {
        Component::Home(h) => h,
        Component::SongList(_) => panic!("first component is the browser"),
    }
}

fn press(code: KeyCode) -> Event {
    Event::Key(KeyPress::plain(code))
}

#[test]
fn end_to_end_auto_advance_after_last_tick() {
    let home = Home::new(FakeOutput::default(), catalog(4, 10));
    let mut app = App::new(vec![Component::Home(home), Component::SongList(SongList::default())], keymap());
    app.handle_events(press(KeyCode::Enter));
    app.handle_actions(1);
    assert_eq!(home_of(&app).player().current_track().unwrap().name, "track0");

    let mut advances = 0;
    let mut index = 0;
    for k in 1..=41u64 {
        app.handle_events(Event::Tick);
        app.handle_actions(250 * k);
        let h = home_of(&app);
        if h.selected_song_index() != index {
            advances += 1;
            index = h.selected_song_index();
            assert_eq!(k, 41, "the advance comes at the 41st tick");
        }
    }
    let h = home_of(&app);
    assert_eq!(advances, 1);
    assert_eq!(h.selected_song_index(), 1);
    assert_eq!(h.player().current_track().unwrap().name, "track1");
    assert_eq!(h.player().position_ms(), 0);
    assert!(!h.player().is_finished());

    for k in 42..=60u64 {
        app.handle_events(Event::Tick);
        app.handle_actions(250 * k);
    }
    let h = home_of(&app);
    assert_eq!(h.selected_song_index(), 1);
    assert_eq!(h.player().output().loads, vec!["track0".to_string(), "track1".to_string()]);
}

#[test]
fn next_song_wraps_to_first_and_plays() {
    let mut home = Home::new(FakeOutput::default(), catalog(3, 10));
    home.prev_song(0);
    assert_eq!(home.selected_song_index(), 2);
    assert_eq!(home.player().current_track().unwrap().name, "track2");
    assert!(home.next_song(5));
    assert_eq!(home.selected_song_index(), 0);
    assert_eq!(home.player().current_track().unwrap().name, "track0");
    assert_eq!(
        home.player().output().loads,
        vec!["track2".to_string(), "track0".to_string()]
    );
}

#[test]
fn prev_song_wraps_to_last_and_plays() {
    let mut home = Home::new(FakeOutput::default(), catalog(4, 10));
    assert_eq!(home.selected_song_index(), 0);
    assert!(home.prev_song(0));
    assert_eq!(home.selected_song_index(), 3);
    assert_eq!(home.player().output().loads, vec!["track3".to_string()]);
}

#[test]
fn skipping_on_empty_catalog_does_nothing() {
    let mut home = Home::new(FakeOutput::default(), Vec::new());
    assert!(!home.next_song(0));
    assert!(!home.prev_song(0));
    assert!(!home.play_selected(0));
    assert_eq!(home.selected_song_index(), 0);
    assert!(home.player().output().loads.is_empty());
}

#[test]
fn tab_cycles_focus_and_arrows_follow_it() {
    let home = Home::new(FakeOutput::default(), catalog(2, 10));
    let mut app = App::new(vec![Component::Home(home)], keymap());
    app.handle_events(press(KeyCode::Down));
    app.handle_actions(0);
    assert_eq!(home_of(&app).selected_index(), 1);
    app.handle_events(press(KeyCode::Tab));
    app.handle_events(press(KeyCode::Down));
    app.handle_events(press(KeyCode::Down));
    app.handle_actions(0);
    let h = home_of(&app);
    assert_eq!(h.selected_widget(), 1);
    assert_eq!(h.selected_song_index(), 1, "selection stops at the last song");
    app.handle_events(press(KeyCode::Tab));
    app.handle_events(press(KeyCode::Up));
    app.handle_events(press(KeyCode::Right));
    app.handle_actions(0);
    let h = home_of(&app);
    assert_eq!(h.selected_widget(), 2);
    assert_eq!(h.player().volume(), 55);
    assert_eq!(h.selected_song_index(), 0);
    assert_eq!(h.player().current_track().unwrap().name, "track0");
    app.handle_events(press(KeyCode::Char('s')));
    app.handle_events(press(KeyCode::Tab));
    app.handle_actions(0);
    let h = home_of(&app);
    assert_eq!(h.selected_widget(), 0);
    assert!(h.player().output().playing.is_none());
    assert_eq!(h.player().current_track().unwrap().name, "track0");
}

#[test]
fn tab_with_modifier_keeps_focus() {
    let home = Home::new(FakeOutput::default(), catalog(2, 10));
    let mut app = App::new(vec![Component::Home(home)], Keymap::new());
    app.handle_events(Event::Key(KeyPress { code: KeyCode::Tab, modifiers: 2 }));
    app.handle_actions(0);
    assert_eq!(home_of(&app).selected_widget(), 0);
}

#[test]
fn events_become_actions_in_order() {
    let mut app = App::new(vec![Component::<FakeOutput>::SongList(SongList::default())], keymap());
    app.handle_events(Event::Render);
    app.handle_events(Event::Resize(80, 24));
    app.handle_events(Event::FocusChange(true));
    app.send(Action::ClearScreen);
    assert_eq!(app.queued(), 3);
    let effects = app.handle_actions(0);
    assert_eq!(
        effects,
        vec![Effect::Draw, Effect::Resize(80, 24), Effect::Draw, Effect::Clear]
    );
    assert_eq!(app.queued(), 0);
    assert_eq!(app.next_step(), LoopStep::Continue);
}

#[test]
fn render_is_handed_out_before_components_see_later_actions() {
    let home = Home::new(FakeOutput::default(), catalog(2, 10));
    let mut app = App::new(vec![Component::Home(home)], keymap());
    app.handle_events(Event::Render);
    app.handle_events(press(KeyCode::Down));
    let (first, work) = app.take_action().unwrap();
    assert_eq!(first, Action::Render);
    assert_eq!(work, vec![Effect::Draw]);
    assert_eq!(home_of(&app).selected_index(), 0, "the draw comes before the key is delivered");
    app.deliver(&first, 0);
    let (second, work) = app.take_action().unwrap();
    assert_eq!(second, Action::Key(KeyPress::plain(KeyCode::Down)));
    assert!(work.is_empty());
    app.deliver(&second, 0);
    assert_eq!(home_of(&app).selected_index(), 1);
    assert!(app.take_action().is_none());
}

#[test]
fn take_action_applies_core_flags() {
    let mut app = App::new(Vec::<Component<FakeOutput>>::new(), Keymap::new());
    app.send(Action::Resize(10, 5));
    app.send(Action::Quit);
    let (_, work) = app.take_action().unwrap();
    assert_eq!(work, vec![Effect::Resize(10, 5), Effect::Draw]);
    assert!(!app.should_quit());
    let (_, work) = app.take_action().unwrap();
    assert!(work.is_empty());
    assert!(app.should_quit());
}

#[test]
fn quit_key_raises_quit_flag() {
    let mut app = App::new(vec![Component::<FakeOutput>::SongList(SongList::default())], keymap());
    app.handle_events(press(KeyCode::Char('q')));
    assert!(!app.should_quit());
    app.handle_actions(0);
    assert!(app.should_quit());
    assert_eq!(app.next_step(), LoopStep::Quit);
}

#[test]
fn quit_event_is_honoured_at_end_of_drain() {
    let mut app = App::new(Vec::<Component<FakeOutput>>::new(), Keymap::new());
    app.handle_events(Event::Quit);
    app.handle_events(Event::Render);
    let effects = app.handle_actions(0);
    assert_eq!(effects, vec![Effect::Draw]);
    assert_eq!(app.next_step(), LoopStep::Quit);
}

#[test]
fn suspend_then_resume_cycle() {
    let mut app = App::new(Vec::<Component<FakeOutput>>::new(), Keymap::new());
    app.send(Action::Suspend);
    app.handle_actions(0);
    assert_eq!(app.next_step(), LoopStep::Suspend);
    app.resume();
    assert!(!app.should_suspend());
    assert_eq!(app.queued(), 2);
    let effects = app.handle_actions(0);
    assert_eq!(effects, vec![Effect::Clear]);
    assert_eq!(app.next_step(), LoopStep::Continue);
}

#[test]
fn suspend_wins_over_quit() {
    let mut app = App::new(Vec::<Component<FakeOutput>>::new(), Keymap::new());
    app.send(Action::Quit);
    app.send(Action::Suspend);
    app.handle_actions(0);
    assert_eq!(app.next_step(), LoopStep::Suspend);
}

#[test]
fn tick_clears_pending_chord() {
    let mut app = App::new(vec![Component::<FakeOutput>::SongList(SongList::default())], keymap());
    app.handle_events(press(KeyCode::Char('g')));
    assert_eq!(app.pending_keys().len(), 1);
    app.handle_events(Event::Tick);
    app.handle_actions(0);
    assert!(app.pending_keys().is_empty());
    app.handle_events(press(KeyCode::Char('h')));
    assert_eq!(app.queued(), 0);
}

#[test]
fn chord_within_one_tick_fires() {
    let mut app = App::new(vec![Component::<FakeOutput>::SongList(SongList::default())], keymap());
    app.handle_events(press(KeyCode::Char('g')));
    app.handle_events(press(KeyCode::Char('h')));
    assert_eq!(app.queued(), 1);
}

#[test]
fn key_events_reach_the_browser_as_key_actions() {
    let home = Home::new(FakeOutput::default(), catalog(1, 10));
    let mut app = App::new(vec![Component::Home(home)], keymap());
    app.handle_events(press(KeyCode::Char('q')));
    assert_eq!(app.queued(), 2, "the bound action and the key itself");
}

#[test]
fn tick_only_interest_rejects_other_kinds() {
    let tick_only = vec![ActionType::Tick];
    assert!(accepts_action(&tick_only, ActionType::Tick));
    assert!(!accepts_action(&tick_only, ActionType::Key));
    assert!(!accepts_action(&tick_only, ActionType::Render));
    assert!(!accepts_action(&tick_only, ActionType::Resize));
}

#[test]
fn empty_interest_accepts_every_kind() {
    let all: Vec<ActionType> = Vec::new();
    for kind in [
        ActionType::Tick,
        ActionType::Render,
        ActionType::Resize,
        ActionType::Key,
        ActionType::VolumeUp,
        ActionType::PressTab,
        ActionType::Error,
    ] {
        assert!(accepts_action(&all, kind));
    }
    assert!(accepts_event(&Vec::new(), EventType::FocusChange));
    assert!(!accepts_event(&vec![EventType::Key], EventType::Tick));
}

#[test]
fn registry_interests_are_index_aligned() {
    let home = Home::new(FakeOutput::default(), catalog(1, 10));
    let app = App::new(vec![Component::Home(home), Component::SongList(SongList::default())], keymap());
    assert_eq!(app.component_action_interests().len(), 2);
    assert_eq!(app.component_event_interests().len(), 2);
    assert!(app.component_action_interests().iter().all(|v| v.is_empty()));
    assert_eq!(app.mode(), Mode::Home);
}

#[test]
fn action_kinds_strip_payload() {
    assert_eq!(Action::Resize(1, 2).get_type(), ActionType::Resize);
    assert_eq!(Action::Error("x".to_string()).get_type(), ActionType::Error);
    assert_eq!(Action::Key(KeyPress::plain(KeyCode::Esc)).get_type(), ActionType::Key);
    assert_eq!(Event::Resize(1, 2).get_type(), EventType::Resize);
    assert_eq!(Event::FocusChange(false).get_type(), EventType::FocusChange);
    assert_eq!(Action::Error("x".to_string()).duplicate(), Action::Error("x".to_string()));
}

#[test]
fn song_list_is_static() {
    let mut list = SongList::default();
    assert_eq!(list.songs().len(), 4);
    assert_eq!(list.songs()[0].1, "3:32");
    assert_eq!(list.update(&Action::Tick), None);
    assert_eq!(list.selected(), 0);
}

#[test]
fn skipping_on_single_entry_catalog_replays_it() {
    let mut home = Home::new(FakeOutput::default(), catalog(1, 10));
    assert!(home.next_song(0));
    assert!(home.prev_song(5));
    assert_eq!(home.selected_song_index(), 0);
    assert_eq!(home.player().output().loads, vec!["track0".to_string(), "track0".to_string()]);
    assert_eq!(home.player().output().playing.as_deref(), Some("track0"));
}
