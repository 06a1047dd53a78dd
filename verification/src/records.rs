use vstd::prelude::*;

verus! {

/// A row of the per-user boss-music table: the file a user's entrance
/// plays, when one was recorded.
#[derive(Debug, PartialEq, Eq, Clone)]
pub struct UserBossMusic {
    song_name: Option<String>,
}

impl UserBossMusic {
    pub fn new(song_name: Option<String>) -> (r: UserBossMusic)
        ensures
            r.song_name() == song_name,
    {
        UserBossMusic { song_name }
    }

    pub closed spec fn song_name(&self) -> Option<String> {
        self.song_name
    }

    /// The recorded file name, if any.
    pub fn song(&self) -> (r: &Option<String>)
        ensures
            *r == self.song_name(),
    {
        &self.song_name
    }
}

/// A row of the channels table: a channel the bot knows of.
#[derive(Debug)]
pub struct Channel {
    pub channel_id: i64,
}

} // verus!
