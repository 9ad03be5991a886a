use beatbot::errors::BotError;
use beatbot::queue::{Queue, QueuedTrack, TrackMeta};

fn track(title: &str) -> QueuedTrack {
    QueuedTrack {
        track: TrackMeta {
            title: title.to_string(),
            author: "Artist".to_string(),
            uri: None,
            artwork_url: None,
            length_ms: 180_000,
        },
        requester_id: 7,
    }
}

fn tracks(names: &[&str]) -> Vec<QueuedTrack> {
    names.iter().map(|n| track(n)).collect()
}

#[test]
fn append_within_bound_admits_all_in_order() {
    let mut q = Queue::new(100);
    let r = q.append(tracks(&["a", "b", "c"]));
    assert_eq!(r.admitted, 3);
    assert_eq!(r.rejected, 0);
    assert_eq!(q.count(), 3);
    assert_eq!(q.peek_at(0).unwrap().track.title, "a");
    assert_eq!(q.peek_at(1).unwrap().track.title, "b");
    assert_eq!(q.peek_at(2).unwrap().track.title, "c");
}

#[test]
fn append_over_bound_reports_rejected() {
    let mut q = Queue::new(3);
    let r = q.append(tracks(&["a", "b", "c", "d", "e"]));
    assert_eq!(r.admitted, 3);
    assert_eq!(r.rejected, 2);
    assert_eq!(q.count(), 3);
    assert_eq!(q.peek_at(2).unwrap().track.title, "c");
}

#[test]
fn repeated_appends_never_exceed_bound() {
    let mut q = Queue::new(4);
    let mut admitted_total = 0;
    let mut rejected_total = 0;
    for batch in [&["a", "b"][..], &["c", "d", "e"][..], &["f"][..]] {
        let r = q.append(tracks(batch));
        admitted_total += r.admitted;
        rejected_total += r.rejected;
        assert!(q.count() <= 4);
        assert_eq!(r.admitted + r.rejected, batch.len());
    }
    assert_eq!(admitted_total, 4);
    assert_eq!(rejected_total, 2);
    assert_eq!(q.count(), 4);
}

#[test]
fn append_to_full_queue_admits_none() {
    let mut q = Queue::new(2);
    q.append(tracks(&["a", "b"]));
    let r = q.append(tracks(&["c"]));
    assert_eq!(r.admitted, 0);
    assert_eq!(r.rejected, 1);
    assert_eq!(q.count(), 2);
}

#[test]
fn remove_then_peek_sees_the_successor() {
    let mut q = Queue::new(10);
    q.append(tracks(&["a", "b", "c"]));
    let removed = q.remove_at(1).unwrap();
    assert_eq!(removed.track.title, "b");
    assert_eq!(q.peek_at(1).unwrap().track.title, "c");
    assert_eq!(q.count(), 2);
}

#[test]
fn remove_last_then_peek_sees_none() {
    let mut q = Queue::new(10);
    q.append(tracks(&["a", "b", "c"]));
    let removed = q.remove_at(2).unwrap();
    assert_eq!(removed.track.title, "c");
    assert!(q.peek_at(2).is_none());
}

#[test]
fn remove_out_of_range_fails_and_changes_nothing() {
    let mut q = Queue::new(10);
    q.append(tracks(&["a", "b", "c"]));
    let r = q.remove_at(5);
    assert!(matches!(r, Err(BotError::IndexOutOfRange)));
    assert_eq!(q.count(), 3);
    assert_eq!(q.peek_at(0).unwrap().track.title, "a");
    assert_eq!(q.peek_at(1).unwrap().track.title, "b");
    assert_eq!(q.peek_at(2).unwrap().track.title, "c");
}

#[test]
fn clear_empties_and_is_idempotent() {
    let mut q = Queue::new(10);
    q.append(tracks(&["a", "b"]));
    q.clear();
    assert_eq!(q.count(), 0);
    q.clear();
    assert_eq!(q.count(), 0);
    assert_eq!(q.max_len(), 10);
    let r = q.append(tracks(&["c"]));
    assert_eq!(r.admitted, 1);
    assert_eq!(q.count(), 1);
}

#[test]
fn peek_out_of_range_is_none_not_error() {
    let q = Queue::new(5);
    assert!(q.peek_at(0).is_none());
}
