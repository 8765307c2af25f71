use vstd::prelude::*;

use crate::action::{Action, ActionType, Event, EventType, KeyCode, KeyPress};
use crate::output::AudioOutput;
use crate::player::{
    player_update,
    play_step,
    tick_step,
    stop_step,
    volume_step,
    PlaybackState,
    Player,
    Track,
};

verus! {

/// Number of panes that the focus cycles through: the menu, the song list
/// and the player.
pub const WIDGET_COUNT: usize = 3;

/// Abstract state of the browsing component.
pub struct HomeView {
    pub player: PlaybackState,
    /// Pane with the focus: 0 menu, 1 song list, 2 player.
    pub widget: usize,
    /// Selected menu entry.
    pub index: usize,
    /// Selected catalog entry.
    pub song_index: usize,
    /// Number of menu entries.
    pub menu_len: nat,
    pub songs: Seq<Track>,
}

/// An index into a collection of `len` items: in range, or zero when the
/// collection is empty.
pub open spec fn index_ok(i: usize, len: nat) -> bool {
    if len == 0 {
        i == 0
    } else {
        i < len
    }
}

impl HomeView {
    pub open spec fn wf(&self) -> bool {
        &&& self.player.wf()
        &&& self.widget < WIDGET_COUNT
        &&& index_ok(self.index, self.menu_len)
        &&& index_ok(self.song_index, self.songs.len())
        &&& self.songs.len() <= usize::MAX
    }
}

/// Next index in a circular walk over `len` items.
pub open spec fn next_index(i: usize, len: nat) -> usize {
    if i + 1 < len {
        (i + 1) as usize
    } else {
        0
    }
}

/// Previous index in a circular walk over `len` items.
pub open spec fn prev_index(i: usize, len: nat) -> usize {
    if i > 0 {
        (i - 1) as usize
    } else {
        (len - 1) as usize
    }
}

/// Selects catalog entry `i` and plays it.
pub open spec fn play_entry(h: HomeView, i: usize, opened: bool, now: u64) -> HomeView {
    HomeView { song_index: i, player: play_step(h.player, h.songs[i as int], opened, now), ..h }
}

/// Advances the selection circularly and plays the new entry; nothing on an
/// empty catalog.
pub open spec fn next_song_step(h: HomeView, opened: bool, now: u64) -> HomeView {
    if h.songs.len() == 0 {
        h
    } else {
        play_entry(h, next_index(h.song_index, h.songs.len()), opened, now)
    }
}

/// Moves the selection back circularly and plays the new entry; nothing on
/// an empty catalog.
pub open spec fn prev_song_step(h: HomeView, opened: bool, now: u64) -> HomeView {
    if h.songs.len() == 0 {
        h
    } else {
        play_entry(h, prev_index(h.song_index, h.songs.len()), opened, now)
    }
}

/// Plays the selected entry; nothing on an empty catalog.
pub open spec fn play_selected_step(h: HomeView, opened: bool, now: u64) -> HomeView {
    if h.songs.len() == 0 {
        h
    } else {
        play_entry(h, h.song_index, opened, now)
    }
}

/// Moves a selection one step up (towards zero) or down, without wrapping.
pub open spec fn step_selection(i: usize, len: nat, code: KeyCode) -> usize {
    match code {
        KeyCode::Up => if i > 0 {
            (i - 1) as usize
        } else {
            i
        },
        KeyCode::Down => if i + 1 < len {
            (i + 1) as usize
        } else {
            i
        },
        _ => i,
    }
}

/// Effect of an arrow, `s` or space key on the pane with the focus. In the
/// menu and the song list, up and down move the selection; in the player,
/// up and down change the volume, right and left skip to the next and
/// previous song, and `s` stops.
pub open spec fn navigate(h: HomeView, code: KeyCode, opened: bool, now: u64) -> HomeView {
    if h.widget == 0 {
        HomeView { index: step_selection(h.index, h.menu_len, code), ..h }
    } else if h.widget == 1 {
        HomeView { song_index: step_selection(h.song_index, h.songs.len(), code), ..h }
    } else {
        match code {
            KeyCode::Up => HomeView {
                player: PlaybackState { volume: volume_step(h.player.volume, true), ..h.player },
                ..h
            },
            KeyCode::Down => HomeView {
                player: PlaybackState { volume: volume_step(h.player.volume, false), ..h.player },
                ..h
            },
            KeyCode::Right => next_song_step(h, opened, now),
            KeyCode::Left => prev_song_step(h, opened, now),
            KeyCode::Char('s') => HomeView { player: stop_step(h.player), ..h },
            _ => h,
        }
    }
}

/// What the output reported while one action was delivered: whether its
/// stream was running at the tick, whether it opened the track of an
/// automatic advance, and whether it opened the track that a key asked for.
pub struct HomeOutcome {
    pub running: bool,
    pub advance_opened: bool,
    pub key_opened: bool,
}

/// Result of delivering `a` at clock reading `now`. The player sees the
/// action first; if it has then finished its track, the component advances
/// to the next one. A key action is then applied to the panes.
pub open spec fn home_update(h: HomeView, a: Action, now: u64, o: HomeOutcome) -> HomeView {
    let h1 = HomeView { player: player_update(h.player, a, now, o.running), ..h };
    let h2 = if h1.player.finished {
        next_song_step(h1, o.advance_opened, now)
    } else {
        h1
    };
    match a {
        Action::Key(k) => match k.code {
            KeyCode::Tab => if k.modifiers == 0 {
                HomeView { widget: ((h2.widget + 1) % (WIDGET_COUNT as int)) as usize, ..h2 }
            } else {
                h2
            },
            KeyCode::Up | KeyCode::Down | KeyCode::Right | KeyCode::Left | KeyCode::Char('s')
            | KeyCode::Char(' ') => navigate(h2, k.code, o.key_opened, now),
            KeyCode::Enter => play_selected_step(h2, o.key_opened, now),
            _ => h2,
        },
        _ => h2,
    }
}

/// Skipping wraps around at both ends of a non-empty catalog: the next song
/// after the last entry is the first, the previous song before the first is
/// the last, and either way the newly selected entry is played.
pub proof fn lemma_skip_wraps(h: HomeView, opened: bool, now: u64)
    requires
        h.wf(),
        h.songs.len() > 0,
    ensures
        h.song_index == h.songs.len() - 1 ==> next_song_step(h, opened, now).song_index == 0
            && next_song_step(h, opened, now).player == play_step(h.player, h.songs[0], opened, now),
        h.song_index == 0 ==> prev_song_step(h, opened, now).song_index == h.songs.len() - 1
            && prev_song_step(h, opened, now).player == play_step(
            h.player,
            h.songs[h.songs.len() - 1],
            opened,
            now,
        ),
        next_song_step(h, opened, now).wf(),
        prev_song_step(h, opened, now).wf(),
{
}

/// Auto-advance. When a tick leaves the player finished, the same update
/// selects the next entry of the catalog, circularly, and plays it: when the
/// output opens it, the player holds that entry at position zero and is no
/// longer finished.
pub proof fn lemma_auto_advance(h: HomeView, now: u64, o: HomeOutcome)
    requires
        h.wf(),
        h.songs.len() > 0,
        tick_step(h.player, now, o.running).finished,
    ensures
        ({
            let next = next_index(h.song_index, h.songs.len());
            let after = home_update(h, Action::Tick, now, o);
            &&& after.song_index == next
            &&& after.player == play_step(tick_step(h.player, now, o.running), h.songs[next as int], o.advance_opened, now)
            &&& o.advance_opened ==> after.player.track == Some(h.songs[next as int])
                && after.player.position_ms == 0 && !after.player.finished
        }),
{
}

/// The browsing component: a menu, the catalog as a song list, and the
/// player, with the focus on one of the three panes.
pub struct Home<O> {
    player: Player<O>,
    selected_widget: usize,
    selected_index: usize,
    selected_song_index: usize,
    list_items: Vec<String>,
    song_items: Vec<Track>,
}

impl<O> View for Home<O> {
    type V = HomeView;

    closed spec fn view(&self) -> HomeView {
        HomeView {
            player: self.player@,
            widget: self.selected_widget,
            index: self.selected_index,
            song_index: self.selected_song_index,
            menu_len: self.list_items@.len(),
            songs: self.song_items@,
        }
    }
}

impl<O: AudioOutput> Home<O> {
    /// The player of this component.
    pub closed spec fn player_value(&self) -> Player<O> {
        self.player
    }

    /// Whether the output of the player is as it was in `old`.
    pub open spec fn output_kept(&self, old: &Self) -> bool {
        self.player_value().output_kept(&old.player_value())
    }

    /// Whether the now selected entry was handed to the output, which then
    /// plays it alone when `opened` and nothing otherwise, at the player's
    /// volume; on an empty catalog nothing is handed over and the output is
    /// as it was in `old`.
    pub open spec fn played_selected(&self, old: &Self, opened: bool) -> bool {
        if old@.songs.len() == 0 {
            self.output_kept(old)
        } else {
            self.player_value().played(old@.songs[self@.song_index as int], opened)
        }
    }

    /// A component browsing `songs`, playing through `output`.
    pub fn new(output: O, songs: Vec<Track>) -> (r: Home<O>)
        ensures
            r@.wf(),
            r@.player == crate::player::idle_state(),
            r@.widget == 0,
            r@.index == 0,
            r@.song_index == 0,
            r@.menu_len == 3,
            r@.songs == songs@,
    {
        let list_items = vec![
            String::from_str(" Тренди"),
            String::from_str(" Улюблені"),
            String::from_str(" Списки відтворення"),
        ];
        assert(songs@.len() == songs.len());
        Home {
            player: Player::new(output),
            selected_widget: 0,
            selected_index: 0,
            selected_song_index: 0,
            list_items,
            song_items: songs,
        }
    }

    /// Moves the focus to the next pane, circularly.
    pub fn next_widget(&mut self)
        requires
            old(self)@.wf(),
        ensures
            final(self)@ == (HomeView {
                widget: ((old(self)@.widget + 1) % (WIDGET_COUNT as int)) as usize,
                ..old(self)@
            }),
            final(self)@.wf(),
    {
        self.selected_widget = (self.selected_widget + 1) % WIDGET_COUNT;
    }

    fn play_entry(&mut self, i: usize, now_ms: u64) -> (opened: bool)
        requires
            old(self)@.wf(),
            i < old(self)@.songs.len(),
        ensures
            final(self)@ == play_entry(old(self)@, i, opened, now_ms),
            final(self)@.wf(),
            final(self).played_selected(old(self), opened),
    {
        self.selected_song_index = i;
        self.player.play_sample(&self.song_items[i], now_ms)
    }

    /// Advances the selection circularly and plays the newly selected entry.
    /// Returns whether the output opened it; does nothing on an empty
    /// catalog.
    pub fn next_song(&mut self, now_ms: u64) -> (opened: bool)
        requires
            old(self)@.wf(),
        ensures
            final(self)@ == next_song_step(old(self)@, opened, now_ms),
            final(self)@.wf(),
            final(self).played_selected(old(self), opened),
    {
        let len = self.song_items.len();
        if len == 0 {
            return false;
        }
        let i = if self.selected_song_index + 1 < len {
            self.selected_song_index + 1
        } else {
            0
        };
        self.play_entry(i, now_ms)
    }

    /// Moves the selection back circularly and plays the newly selected
    /// entry. Returns whether the output opened it; does nothing on an empty
    /// catalog.
    pub fn prev_song(&mut self, now_ms: u64) -> (opened: bool)
        requires
            old(self)@.wf(),
        ensures
            final(self)@ == prev_song_step(old(self)@, opened, now_ms),
            final(self)@.wf(),
            final(self).played_selected(old(self), opened),
    {
        let len = self.song_items.len();
        if len == 0 {
            return false;
        }
        let i = if self.selected_song_index > 0 {
            self.selected_song_index - 1
        } else {
            len - 1
        };
        self.play_entry(i, now_ms)
    }

    /// Plays the selected entry. Returns whether the output opened it; does
    /// nothing on an empty catalog.
    pub fn play_selected(&mut self, now_ms: u64) -> (opened: bool)
        requires
            old(self)@.wf(),
        ensures
            final(self)@ == play_selected_step(old(self)@, opened, now_ms),
            final(self)@.wf(),
            final(self).played_selected(old(self), opened),
    {
        if self.song_items.len() == 0 {
            return false;
        }
        let i = self.selected_song_index;
        self.play_entry(i, now_ms)
    }

    /// Applies an arrow, `s` or space key to the pane with the focus (see
    /// `navigate`). Returns whether the output opened a track, when the key
    /// asked for one.
    pub fn handle_list_navigation(&mut self, code: KeyCode, now_ms: u64) -> (opened: bool)
        requires
            old(self)@.wf(),
        ensures
            final(self)@ == navigate(old(self)@, code, opened, now_ms),
            final(self)@.wf(),
            old(self)@.widget != 2 ==> final(self).output_kept(old(self)),
            old(self)@.widget == 2 && (code == KeyCode::Up || code == KeyCode::Down) ==> {
                let (p, q) = (final(self).player_value(), old(self).player_value());
                &&& p.output_requested() == q.output_requested()
                &&& p.output_playing() == q.output_playing()
                &&& p.output_level() == Some(final(self)@.player.volume)
            },
            old(self)@.widget == 2 && (code == KeyCode::Right || code == KeyCode::Left) ==> final(self).played_selected(old(self), opened),
            old(self)@.widget == 2 && code == KeyCode::Char('s') ==> {
                let (p, q) = (final(self).player_value(), old(self).player_value());
                &&& p.output_playing() is None
                &&& p.output_requested() == q.output_requested()
                &&& p.output_level() == q.output_level()
            },
            old(self)@.widget == 2 && !(code == KeyCode::Up || code == KeyCode::Down || code
                == KeyCode::Right || code == KeyCode::Left || code == KeyCode::Char('s'))
                ==> final(self).output_kept(old(self)),
    {
        if self.selected_widget == 0 {
            let len = self.list_items.len();
            match code {
                KeyCode::Up => {
                    if self.selected_index > 0 {
                        self.selected_index = self.selected_index - 1;
                    }
                },
                KeyCode::Down => {
                    if self.selected_index + 1 < len {
                        self.selected_index = self.selected_index + 1;
                    }
                },
                _ => {},
            }
            false
        } else if self.selected_widget == 1 {
            let len = self.song_items.len();
            match code {
                KeyCode::Up => {
                    if self.selected_song_index > 0 {
                        self.selected_song_index = self.selected_song_index - 1;
                    }
                },
                KeyCode::Down => {
                    if self.selected_song_index + 1 < len {
                        self.selected_song_index = self.selected_song_index + 1;
                    }
                },
                _ => {},
            }
            false
        } else {
            match code {
                KeyCode::Up => {
                    self.player.change_volume(true);
                    false
                },
                KeyCode::Down => {
                    self.player.change_volume(false);
                    false
                },
                KeyCode::Right => self.next_song(now_ms),
                KeyCode::Left => self.prev_song(now_ms),
                KeyCode::Char('s') => {
                    self.player.stop();
                    false
                },
                _ => false,
            }
        }
    }

    /// Delivers `a` at clock reading `now_ms` (see `home_update`). The
    /// component never answers with an action of its own.
    pub fn update(&mut self, a: &Action, now_ms: u64) -> (r: Option<Action>)
        requires
            old(self)@.wf(),
        ensures
            r is None,
            final(self)@.wf(),
            exists|o: HomeOutcome| final(self)@ == home_update(old(self)@, *a, now_ms, o),
    {
        let ghost h0 = self@;
        let _ = self.player.update(a, now_ms);
        let ghost running = choose|running: bool|
            self@.player == player_update(h0.player, *a, now_ms, running);
        let ghost h1 = self@;
        let mut advance_opened = false;
        if self.player.is_finished() {
            advance_opened = self.next_song(now_ms);
        }
        let ghost h2 = self@;
        let mut key_opened = false;
        match a {
            Action::Key(k) => match k.code {
                KeyCode::Tab => {
                    if k.modifiers == 0 {
                        self.next_widget();
                    }
                },
                KeyCode::Up | KeyCode::Down | KeyCode::Right | KeyCode::Left | KeyCode::Char('s')
                | KeyCode::Char(' ') => {
                    key_opened = self.handle_list_navigation(k.code, now_ms);
                },
                KeyCode::Enter => {
                    key_opened = self.play_selected(now_ms);
                },
                _ => {},
            },
            _ => {},
        }
        assert(self@ == home_update(
            h0,
            *a,
            now_ms,
            HomeOutcome { running, advance_opened, key_opened },
        ));
        None
    }

    /// A key press is passed on to the action bus as a key action.
    pub fn handle_key_event(&self, key: KeyPress) -> (r: Option<Action>)
        ensures
            r == Some(Action::Key(key)),
    {
        Some(Action::Key(key))
    }

    /// The raw-event reaction: only key presses get an answer.
    pub fn handle_events(&self, e: &Event) -> (r: Option<Action>)
        ensures
            r == match *e {
                Event::Key(k) => Some(Action::Key(k)),
                _ => None::<Action>,
            },
    {
        match e {
            Event::Key(k) => self.handle_key_event(*k),
            _ => None,
        }
    }

    /// The action kinds this component receives: all of them.
    pub fn interested_actions(&self) -> (r: Vec<ActionType>)
        ensures
            r@.len() == 0,
    {
        Vec::new()
    }

    /// The event kinds this component receives: all of them.
    pub fn interested_events(&self) -> (r: Vec<EventType>)
        ensures
            r@.len() == 0,
    {
        Vec::new()
    }

    pub fn player(&self) -> (r: &Player<O>)
        ensures
            r@ == self@.player,
    {
        &self.player
    }

    pub fn selected_widget(&self) -> (r: usize)
        ensures
            r == self@.widget,
    {
        self.selected_widget
    }

    pub fn selected_index(&self) -> (r: usize)
        ensures
            r == self@.index,
    {
        self.selected_index
    }

    pub fn selected_song_index(&self) -> (r: usize)
        ensures
            r == self@.song_index,
    {
        self.selected_song_index
    }

    pub fn list_items(&self) -> (r: &Vec<String>)
        ensures
            r@.len() == self@.menu_len,
    {
        &self.list_items
    }

    pub fn songs(&self) -> (r: &Vec<Track>)
        ensures
            r@ == self@.songs,
    {
        &self.song_items
    }
}

} // verus!
