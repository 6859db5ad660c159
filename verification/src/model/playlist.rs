//! Playlists: a name, an identifier and the tracks.

use crate::model::identity::is_random_layout;
use crate::model::identity::random_uuid;
use crate::model::track::Track;
use vstd::prelude::*;

verus! {

/// What is stored of a playlist besides its tracks.
#[derive(Debug)]
pub struct PlaylistMd {
    pub uuid: u128,
    pub name: String,
}

impl Clone for PlaylistMd {
    fn clone(&self) -> (copy: Self)
        ensures
            copy == *self,
    {
        PlaylistMd { uuid: self.uuid, name: self.name.clone() }
    }
}

/// A playlist with its tracks, in the order in which they are played.
#[derive(Debug)]
pub struct Playlist {
    pub uuid: u128,
    pub name: String,
    pub tracks: Vec<Track>,
}

/// A playlist as contracts speak of it.
pub struct PlaylistView {
    pub uuid: u128,
    pub name: String,
    pub tracks: Seq<Track>,
}

impl View for Playlist {
    type V = PlaylistView;

    open spec fn view(&self) -> PlaylistView {
        PlaylistView { uuid: self.uuid, name: self.name, tracks: self.tracks@ }
    }
}

impl Clone for Playlist {
    fn clone(&self) -> (copy: Self)
        ensures
            copy@ == self@,
    {
        Playlist { uuid: self.uuid, name: self.name.clone(), tracks: self.tracks.clone() }
    }
}

/// `tracks` without those whose identifier is `uuid`, the others in their order.
pub open spec fn without(tracks: Seq<Track>, uuid: u128) -> Seq<Track> {
    tracks.filter(|t: Track| t.uuid != uuid)
}

impl PlaylistMd {
    /// The metadata of a new playlist: the name given and a new random
    /// identifier.
    pub fn new(name: String) -> (md: PlaylistMd)
        ensures
            md.name == name,
            is_random_layout(md.uuid),
    {
        PlaylistMd::with_uuid(random_uuid(), name)
    }

    /// The metadata of a playlist that is known under `uuid`.
    pub fn with_uuid(uuid: u128, name: String) -> (md: PlaylistMd)
        ensures
            md.uuid == uuid,
            md.name == name,
    {
        PlaylistMd { uuid, name }
    }
}

impl Playlist {
    /// The playlist without the given track. Every entry with the track's
    /// identifier goes; the order of the others stays.
    pub fn remove_track(self, track: &Track) -> (shorter: Playlist)
        ensures
            shorter.uuid == self.uuid,
            shorter.name == self.name,
            shorter.tracks@ == without(self.tracks@, track.uuid),
    {
        let Playlist { uuid, name, tracks } = self;
        let mut kept: Vec<Track> = Vec::new();
        let mut i: usize = 0;
        while i < tracks.len()
            invariant
                i <= tracks.len(),
                kept@ == without(tracks@.subrange(0, i as int), track.uuid),
            decreases tracks.len() - i,
        {
            proof {
                let before = tracks@.subrange(0, i as int);
                let after = tracks@.subrange(0, i + 1);
                assert(after == before.push(tracks@[i as int]));
                filter_push(before, tracks@[i as int], track.uuid);
            }
            if tracks[i].uuid != track.uuid {
                kept.push(tracks[i].clone());
            }
            i += 1;
        }
        proof {
            assert(tracks@.subrange(0, tracks@.len() as int) == tracks@);
        }
        Playlist { uuid, name, tracks: kept }
    }

    /// The playlist that `md` describes, with the tracks given.
    pub fn from_playlistmd(md: PlaylistMd, tracks: Vec<Track>) -> (playlist: Playlist)
        ensures
            playlist.uuid == md.uuid,
            playlist.name == md.name,
            playlist.tracks == tracks,
    {
        Playlist { uuid: md.uuid, name: md.name, tracks }
    }
}

/// Filtering a sequence that grew by one item: the item is kept or not.
pub proof fn filter_push(tracks: Seq<Track>, last: Track, uuid: u128)
    ensures
        without(tracks.push(last), uuid) == if last.uuid != uuid {
            without(tracks, uuid).push(last)
        } else {
            without(tracks, uuid)
        },
{
    let pred = |t: Track| t.uuid != uuid;
    let whole = tracks.push(last);
    assert(whole.drop_last() == tracks);
    reveal(Seq::filter);
    assert(whole.filter(pred) == if pred(last) {
        tracks.filter(pred).push(last)
    } else {
        tracks.filter(pred)
    });
}

} // verus!
