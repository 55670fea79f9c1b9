use vstd::prelude::*;
use vstd::string::StringExecFns;

verus! {

/// A track: its name and the names of its artists, in order.
#[derive(Debug, Clone, PartialEq, Eq)]
pub struct Track {
    pub name: String,
    pub artists: Vec<String>,
}

/// What the player is playing.
#[derive(Debug, Clone, PartialEq, Eq)]
pub enum PlayableItem {
    Track(Track),
    Episode,
}

/// The player's state: whether it plays, and the item if one is known.
#[derive(Debug, Clone, PartialEq, Eq)]
pub struct CurrentlyPlaying {
    pub is_playing: bool,
    pub item: Option<PlayableItem>,
}

/// The names joined by ", ".
pub open spec fn join_names(names: Seq<Seq<char>>) -> Seq<char>
    decreases names.len(),
{
    if names.len() == 0 {
        Seq::empty()
    } else if names.len() == 1 {
        names[0]
    } else {
        join_names(names.drop_last()) + ", "@ + names.last()
    }
}

impl Track {
    pub open spec fn artist_names(&self) -> Seq<Seq<char>> {
        self.artists@.map_values(|a: String| a@)
    }

    /// "<name> - <artists joined by ", ">".
    pub open spec fn label(&self) -> Seq<char> {
        self.name@ + " - "@ + join_names(self.artist_names())
    }
}

impl CurrentlyPlaying {
    /// The label of a track; empty for anything else or for no item.
    pub open spec fn label(&self) -> Seq<char> {
        match self.item {
            Some(PlayableItem::Track(t)) => t.label(),
            _ => Seq::empty(),
        }
    }
}

/// The artist names joined by ", ".
pub fn join_artists(artists: &Vec<String>) -> (r: String)
    ensures
        r@ == join_names(artists@.map_values(|a: String| a@)),
{
    let ghost names = artists@.map_values(|a: String| a@);
    let mut r = String::new();
    let mut i: usize = 0;
    while i < artists.len()
        invariant
            i <= artists.len(),
            names == artists@.map_values(|a: String| a@),
            r@ == join_names(names.subrange(0, i as int)),
        decreases artists.len() - i,
    {
        proof {
            let next = names.subrange(0, i as int + 1);
            assert(next.drop_last() =~= names.subrange(0, i as int));
            assert(next.last() == artists@[i as int]@);
        }
        if i > 0 {
            r.append(", ");
        }
        r.append(artists[i].as_str());
        i = i + 1;
    }
    assert(names.subrange(0, artists.len() as int) =~= names);
    r
}

/// The label "<track name> - <artists>" of a track.
pub fn format_track(track: &Track) -> (r: String)
    ensures
        r@ == track.label(),
{
    let mut r = track.name.clone();
    r.append(" - ");
    let artists = join_artists(&track.artists);
    r.append(artists.as_str());
    r
}

/// The label of what is playing: a track's label, or empty when no track is known.
pub fn format_currently_playing(currently_playing: &CurrentlyPlaying) -> (r: String)
    ensures
        r@ == currently_playing.label(),
{
    match &currently_playing.item {
        Some(PlayableItem::Track(track)) => format_track(track),
        _ => String::new(),
    }
}

/// The state reported when the player has nothing at all.
pub fn nothing_playing() -> (r: CurrentlyPlaying)
    ensures
        !r.is_playing,
        r.item is None,
{
    CurrentlyPlaying { is_playing: false, item: None }
}

} // verus!
