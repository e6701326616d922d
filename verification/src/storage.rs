//! What is kept between sessions: every kata's counters and the settings,
//! and the place where they are kept.

use std::path::PathBuf;
use vstd::prelude::*;

use crate::games::{GameState, GameStateView};

verus! {

/// `std::path::PathBuf`, carried through and never looked into.
#[verifier::external_type_specification]
#[verifier::external_body]
pub struct ExPathBuf(PathBuf);

/// The colours of the interface.
#[derive(Clone, Copy, Debug, PartialEq, Eq, Structural)]
pub enum Theme {
    Light,
    Dark,
}

/// What the player has chosen in the settings view.
#[derive(Clone, Copy, Debug, PartialEq, Eq, Structural)]
pub struct Settings {
    pub audio_enabled: bool,
    pub theme: Theme,
}

impl Default for Settings {
    /// Sound on, light theme.
    fn default() -> (r: Self)
        ensures
            r == (Settings { audio_enabled: true, theme: Theme::Light }),
    {
        Self { audio_enabled: true, theme: Theme::Light }
    }
}

/// The record kept between sessions. `scores` goes by position: the entry at
/// `i` belongs to the kata at `i` of the shell's list.
#[derive(Debug)]
pub struct SaveData {
    pub scores: Vec<GameState>,
    pub settings: Settings,
}

/// Mathematical value of a [`SaveData`].
pub struct SaveDataView {
    pub scores: Seq<GameStateView>,
    pub settings: Settings,
}

impl View for SaveData {
    type V = SaveDataView;

    open spec fn view(&self) -> SaveDataView {
        SaveDataView {
            scores: Seq::new(self.scores@.len(), |i: int| self.scores@[i]@),
            settings: self.settings,
        }
    }
}

impl Default for SaveData {
    /// No scores, and the settings at their defaults: what a session starts
    /// from when nothing usable was kept.
    fn default() -> (r: Self)
        ensures
            r.scores@ == Seq::<GameState>::empty(),
            r.settings == (Settings { audio_enabled: true, theme: Theme::Light }),
            r@ == (SaveDataView {
                scores: Seq::empty(),
                settings: Settings { audio_enabled: true, theme: Theme::Light },
            }),
    {
        let r = Self { scores: Vec::new(), settings: Settings::default() };
        assert(r@.scores =~= Seq::empty());
        r
    }
}

/// Where the record is kept.
#[derive(Debug)]
pub struct Storage {
    pub path: PathBuf,
}

impl Storage {
    /// A storage that keeps the record at `path`.
    pub fn new(path: PathBuf) -> (r: Self)
        ensures
            r.path == path,
    {
        Self { path }
    }

    /// The record that a session starts from: `read`, what the file at
    /// `path` was found to hold, or the default record where the file could
    /// not be read or held no record. Loading never fails.
    pub fn load(&self, read: Option<SaveData>) -> (r: SaveData)
        ensures
            match read {
                Some(data) => r == data,
                None => r.scores@ == Seq::<GameState>::empty() && r.settings == (Settings {
                    audio_enabled: true,
                    theme: Theme::Light,
                }),
            },
    {
        match read {
            Some(data) => data,
            None => SaveData::default(),
        }
    }
}

} // verus!
