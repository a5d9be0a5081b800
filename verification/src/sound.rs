//! The sounds of the game and where their files are.

use vstd::prelude::*;
use vstd::string::StringExecFns;

verus! {

/// A sound of the game.
#[derive(PartialEq, Eq, Structural, Clone, Copy, Debug)]
pub enum Sound {
    /// The snake ran into something.
    Hit,
    /// The snake ate and grew.
    Grow,
    /// The music that plays during the game.
    Music,
}

impl Sound {
    /// The name under which the sound is kept.
    pub open spec fn spec_name(self) -> Seq<char> {
        match self {
            Sound::Hit => "snake_hit"@,
            Sound::Grow => "snake_grow"@,
            Sound::Music => "music"@,
        }
    }

    /// The name under which the sound is kept.
    pub fn name(self) -> (name: &'static str)
        ensures
            name@ == self.spec_name(),
    {
        match self {
            Sound::Hit => "snake_hit",
            Sound::Grow => "snake_grow",
            Sound::Music => "music",
        }
    }
}

/// The path of the file that holds the sound called `name`: `name` in the
/// directory `assets`, with the ending `.ogg`.
pub fn asset_path(name: &str) -> (path: String)
    ensures
        path@ == "assets/"@ + name@ + ".ogg"@,
{
    let mut path = String::from_str("assets/");
    path.append(name);
    path.append(".ogg");
    path
}

} // verus!
