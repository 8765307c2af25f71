use vstd::prelude::*;

use crate::action::Action;

verus! {

/// Abstract state of a song list: the selected row and the rows as
/// (title, duration text) pairs.
pub struct SongListView {
    pub selected: usize,
    pub songs: Seq<(String, String)>,
}

/// A static list of songs that reacts to no action.
pub struct SongList {
    selected_song_index: usize,
    song_items: Vec<(String, String)>,
}

impl View for SongList {
    type V = SongListView;

    closed spec fn view(&self) -> SongListView {
        SongListView { selected: self.selected_song_index, songs: self.song_items@ }
    }
}

impl SongList {
    /// A list of four placeholder rows with the first one selected.
    pub fn default() -> (r: SongList)
        ensures
            r@.selected == 0,
            r@.songs.len() == 4,
    {
        let mut song_items: Vec<(String, String)> = Vec::new();
        let mut i: usize = 0;
        while i < 4
            invariant
                i <= 4,
                song_items@.len() == i,
            decreases 4 - i,
        {
            song_items.push((String::from_str("Super long string "), String::from_str("3:32")));
            i = i + 1;
        }
        SongList { selected_song_index: 0, song_items }
    }

    /// Delivers an action; the list keeps its state and never answers.
    pub fn update(&mut self, a: &Action) -> (r: Option<Action>)
        ensures
            r is None,
            final(self)@ == old(self)@,
    {
        None
    }

    pub fn selected(&self) -> (r: usize)
        ensures
            r == self@.selected,
    {
        self.selected_song_index
    }

    pub fn songs(&self) -> (r: &Vec<(String, String)>)
        ensures
            r@ == self@.songs,
    {
        &self.song_items
    }
}

} // verus!
