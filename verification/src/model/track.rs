//! A track of the library.

use vstd::prelude::*;

verus! {

/// An audio file of the library. Two tracks are the same track when their
/// `uuid` is the same; the identifier is stored in the file's own tags, so it
/// survives a new scan of the music directory.
#[derive(Debug)]
pub struct Track {
    /// The identifier, as the 128-bit number that a UUID is.
    pub uuid: u128,
    /// The length of the track in milliseconds.
    pub duration_ms: u64,
    /// Where the file lies.
    pub path: String,
}

impl Clone for Track {
    fn clone(&self) -> (copy: Self)
        ensures
            copy == *self,
    {
        Track { uuid: self.uuid, duration_ms: self.duration_ms, path: self.path.clone() }
    }
}

/// One row of the table that links playlists and tracks.
#[derive(Clone, Copy, Debug)]
pub struct DbTrack {
    pub playlist_uuid: u128,
    pub track_uuid: u128,
}

/// The position of the first track of `tracks` with identifier `uuid`, or
/// the length of `tracks` when there is none.
pub open spec fn position_of(tracks: Seq<Track>, uuid: u128) -> int
    decreases tracks.len(),
{
    if tracks.len() == 0 {
        0
    } else if tracks[0].uuid == uuid {
        0
    } else {
        1 + position_of(tracks.drop_first(), uuid)
    }
}

/// Whether a track with identifier `uuid` is among `tracks`.
pub open spec fn knows(tracks: Seq<Track>, uuid: u128) -> bool {
    exists|i: int| 0 <= i < tracks.len() && (#[trigger] tracks[i]).uuid == uuid
}

/// `position_of` is the least index with the identifier, or the length.
pub proof fn lemma_position_of(tracks: Seq<Track>, uuid: u128)
    ensures
        0 <= position_of(tracks, uuid) <= tracks.len(),
        position_of(tracks, uuid) < tracks.len() ==> tracks[position_of(tracks, uuid)].uuid == uuid,
        forall|i: int| 0 <= i < position_of(tracks, uuid) ==> (#[trigger] tracks[i]).uuid != uuid,
        knows(tracks, uuid) <==> position_of(tracks, uuid) < tracks.len(),
    decreases tracks.len(),
{
    if tracks.len() == 0 {
    } else if tracks[0].uuid == uuid {
    } else {
        let rest = tracks.drop_first();
        lemma_position_of(rest, uuid);
        let p = position_of(rest, uuid);
        assert forall|i: int| 0 <= i < 1 + p implies (#[trigger] tracks[i]).uuid != uuid by {
            if i > 0 {
                assert(tracks[i] == rest[i - 1]);
            }
        }
        if p < rest.len() {
            assert(tracks[1 + p] == rest[p]);
        }
        if knows(tracks, uuid) {
            let i = choose|i: int| 0 <= i < tracks.len() && (#[trigger] tracks[i]).uuid == uuid;
            assert(rest[i - 1] == tracks[i]);
        }
    }
}

/// The library tracks that the rows name, the last row first.
pub open spec fn resolved(tracks: Seq<Track>, rows: Seq<DbTrack>) -> Seq<Track> {
    Seq::new(
        rows.len(),
        |i: int| tracks[position_of(tracks, rows[rows.len() - 1 - i].track_uuid)],
    )
}

impl Track {
    /// Finds the first track of `tracks` with identifier `uuid`.
    pub fn find(tracks: &Vec<Track>, uuid: u128) -> (found: Option<usize>)
        ensures
            match found {
                Some(i) => i == position_of(tracks@, uuid) && i < tracks@.len(),
                None => !knows(tracks@, uuid),
            },
    {
        proof {
            lemma_position_of(tracks@, uuid);
        }
        let mut i: usize = 0;
        while i < tracks.len()
            invariant
                i <= tracks.len(),
                i <= position_of(tracks@, uuid),
                position_of(tracks@, uuid) <= tracks@.len(),
                position_of(tracks@, uuid) < tracks@.len() ==> tracks@[position_of(
                    tracks@,
                    uuid,
                )].uuid == uuid,
                forall|k: int|
                    0 <= k < position_of(tracks@, uuid) ==> (#[trigger] tracks@[k]).uuid != uuid,
                knows(tracks@, uuid) <==> position_of(tracks@, uuid) < tracks@.len(),
            decreases tracks.len() - i,
        {
            if tracks[i].uuid == uuid {
                return Some(i);
            }
            i += 1;
        }
        None
    }

    /// Turns the rows of a playlist into tracks of the library. The rows are
    /// taken from the back, so the result runs in the opposite order. Every
    /// row must name a track of `tracks`.
    pub fn from_db_tracks(tracks: &Vec<Track>, db_tracks: Vec<DbTrack>) -> (converted: Vec<Track>)
        requires
            forall|i: int| 0 <= i < db_tracks@.len() ==> knows(tracks@, (#[trigger] db_tracks@[i]).track_uuid),
        ensures
            converted@ == resolved(tracks@, db_tracks@),
    {
        let ghost rows = db_tracks@;
        let mut db_tracks = db_tracks;
        let mut converted: Vec<Track> = Vec::new();
        while db_tracks.len() > 0
            invariant
                db_tracks@.len() + converted@.len() == rows.len(),
                db_tracks@ == rows.subrange(0, db_tracks@.len() as int),
                forall|i: int| 0 <= i < rows.len() ==> knows(tracks@, (#[trigger] rows[i]).track_uuid),
                forall|i: int|
                    0 <= i < converted@.len() ==> converted@[i] == #[trigger] resolved(
                        tracks@,
                        rows,
                    )[i],
            decreases db_tracks.len(),
        {
            let row = db_tracks.pop().unwrap();
            assert(row == rows[rows.len() - 1 - converted@.len()]);
            match Track::find(tracks, row.track_uuid) {
                Some(i) => {
                    converted.push(tracks[i].clone());
                },
                None => {
                    assert(false);
                },
            }
        }
        converted
    }
}

} // verus!
