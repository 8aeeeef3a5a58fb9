use vstd::prelude::*;

verus! {

/// One queue-able item: a stable identity hash, its display fields and the
/// path of its media.
#[derive(Debug, PartialEq, Eq)]
pub struct Kfile {
    pub hash: u64,
    pub artist: String,
    pub song: String,
    pub mp3_path: String,
}

impl Kfile {
    pub fn new(hash: u64, artist: String, song: String, mp3_path: String) -> (r: Kfile)
        ensures
            r.hash == hash,
            r.artist == artist,
            r.song == song,
            r.mp3_path == mp3_path,
    {
        Kfile { hash, artist, song, mp3_path }
    }
}

impl Clone for Kfile {
    fn clone(&self) -> (r: Self)
        ensures
            r == *self,
    {
        Kfile {
            hash: self.hash,
            artist: self.artist.clone(),
            song: self.song.clone(),
            mp3_path: self.mp3_path.clone(),
        }
    }
}

} // verus!
