use karaoke::{Kfile, PlayQueue};

fn track(hash: u64) -> Kfile {
    Kfile::new(
        hash,
        format!("Artist {}", hash),
        format!("Song {}", hash),
        format!("songs/{}.mp3", hash),
    )
}

fn hashes(q: &PlayQueue) -> Vec<u64> {
    q.snapshot().iter().map(|k| k.hash).collect()
}

#[test]
fn push_appends_at_tail() {
    let mut q = PlayQueue::new();
    assert!(q.is_empty());
    q.push(track(1));
    q.push(track(2));
    q.push(track(3));
    assert_eq!(hashes(&q), vec![1, 2, 3]);
    assert_eq!(q.len(), 3);
    assert_eq!(q.head().map(|k| k.hash), Some(1));
}

#[test]
fn insert_front_replaces_head() {
    let mut q = PlayQueue::new();
    q.push(track(1));
    q.push(track(2));
    q.insert_front(track(9));
    assert_eq!(hashes(&q), vec![9, 2]);
}

#[test]
fn insert_front_on_empty_queue() {
    let mut q = PlayQueue::new();
    q.insert_front(track(9));
    assert_eq!(hashes(&q), vec![9]);
}

#[test]
fn pop_front_if_present_removes_head() {
    let mut q = PlayQueue::new();
    q.push(track(1));
    q.push(track(2));
    let popped = q.pop_front_if_present();
    assert_eq!(popped.map(|k| k.hash), Some(1));
    assert_eq!(hashes(&q), vec![2]);
}

#[test]
fn pop_front_if_present_on_empty_queue() {
    let mut q = PlayQueue::new();
    assert!(q.pop_front_if_present().is_none());
    assert!(q.is_empty());
    assert!(q.head().is_none());
}

#[test]
fn clear_empties_queue() {
    let mut q = PlayQueue::new();
    q.push(track(1));
    q.push(track(2));
    q.clear();
    assert!(q.snapshot().is_empty());
}

#[test]
fn snapshot_copies_every_field() {
    let mut q = PlayQueue::new();
    q.push(track(7));
    let snap = q.snapshot();
    assert_eq!(snap, vec![track(7)]);
    assert_eq!(snap[0].artist, "Artist 7");
    assert_eq!(snap[0].song, "Song 7");
    assert_eq!(snap[0].mp3_path, "songs/7.mp3");
}

#[test]
fn kfile_clone_is_equal() {
    let k = track(4);
    assert_eq!(k.clone(), k);
}
