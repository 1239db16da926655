use rculock::{RcuGuard, RcuLock};
use std::collections::HashMap;
use std::sync::atomic::{AtomicUsize, Ordering};
use std::sync::Arc;

#[test]
fn test() {
    // Create a new RcuLock protecting a piece of data, in this case a number (u32).
    let data: RcuLock<u32> = RcuLock::new(5);
    assert_eq!(5, *data.read());
    {
        // The data is cloned and handed to the writer
        let mut guard: RcuGuard<u32> = data.write();
        // RcuGuard implements `Deref` and `DerefMut` for easy access to the data.
        *guard = 4;
        // The writer has changed its copy of the data, but the changes
        // have not yet made it back to the master `RcuLock`.
        assert_eq!(5, *data.read());
    }
    // After the write guard is dropped, the state of the resource
    // as the writer sees it is atomically stored back into the master RcuLock.
    assert_eq!(4, *data.read());
}

#[test]
fn guard_starts_from_published_value() {
    let data: RcuLock<u32> = RcuLock::new(17);
    let guard = data.write();
    assert_eq!(17, *guard);
}

#[test]
fn guard_shows_its_own_writes() {
    let data: RcuLock<u32> = RcuLock::new(5);
    let mut guard = data.write();
    *guard += 10;
    assert_eq!(15, *guard);
    *guard *= 2;
    assert_eq!(30, *guard);
    assert_eq!(5, *data.read());
    drop(guard);
    assert_eq!(30, *data.read());
}

#[test]
fn read_returns_while_a_guard_is_live() {
    let data: RcuLock<u32> = RcuLock::new(1);
    let guard = data.write();
    for _ in 0..100 {
        assert_eq!(1, *data.read());
    }
    drop(guard);
}

#[test]
fn sequential_writers_lose_no_update() {
    let data: RcuLock<i32> = RcuLock::new(5);
    {
        let mut a = data.write();
        *a = 4;
    }
    {
        let mut b = data.write();
        *b -= 1;
    }
    assert_eq!(3, *data.read());
}

#[test]
fn token_is_free_again_after_each_guard() {
    let data: RcuLock<i32> = RcuLock::new(0);
    for i in 1..50 {
        let mut guard = data.write();
        *guard = i;
        drop(guard);
        assert_eq!(i, *data.read());
    }
}

#[test]
fn thousand_decrements_leave_early_handle_alone() {
    let data = RcuLock::new(5);
    let read = data.read().clone();
    for i in 1..1001 {
        let mut guard = data.write();
        *guard -= 1;
        drop(guard);
        assert_eq!(5 - i, *data.read());
    }
    assert_eq!(-995, *data.read());
    assert_eq!(5, *read);
}

#[test]
fn hashmap_single_thread() {
    let map = Arc::new(RcuLock::new(HashMap::<i32, i32>::new()));
    map.write().insert(1, 1);
    assert_eq!(Some(&1), map.read().get(&1));
    assert_eq!(1, map.read().len());
    {
        let mut guard = map.write();
        for i in 0..1000 {
            guard.insert(i % 10, i);
            assert_eq!(1, map.read().len());
        }
    }
    let res = map.read();
    assert_eq!(Some(&999), res.get(&9));
    assert_eq!(10, res.len());
}

#[test]
fn hashmap_second_writer_builds_on_first() {
    let map = Arc::new(RcuLock::new(HashMap::<i32, i32>::new()));
    map.write().insert(1, 1);
    {
        let mut guard = map.write();
        for i in 0..1000 {
            guard.insert(i % 10, i);
        }
    }
    assert_eq!(Some(&999), map.read().get(&9));
    {
        let mut guard = map.write();
        assert_eq!(Some(&999), guard.get(&9));
        for i in 0..1200 {
            guard.insert(i % 10, i);
        }
    }
    let res = map.read();
    assert_eq!(Some(&1199), res.get(&9));
    assert_eq!(Some(&1190), res.get(&0));
}

#[test]
fn retired_version_is_freed_with_its_last_handle() {
    let data: RcuLock<String> = RcuLock::new(String::from("first"));
    let handle = data.read();
    let watch = Arc::downgrade(&handle);
    {
        let mut guard = data.write();
        guard.push_str(" second");
    }
    // The slot has let go of the retired version; the reader still has it.
    assert_eq!(1, Arc::strong_count(&handle));
    assert_eq!("first", handle.as_str());
    assert_eq!("first second", data.read().as_str());
    drop(handle);
    assert!(watch.upgrade().is_none());
}

#[test]
fn published_version_is_freed_with_the_lock() {
    let data: RcuLock<Vec<u8>> = RcuLock::new(vec![1, 2, 3]);
    let watch = Arc::downgrade(&data.read());
    assert!(watch.upgrade().is_some());
    drop(data);
    assert!(watch.upgrade().is_none());
}

#[test]
fn retired_versions_do_not_pile_up() {
    let data: RcuLock<u64> = RcuLock::new(0);
    let mut watches = Vec::new();
    for i in 0..1000 {
        watches.push(Arc::downgrade(&data.read()));
        let mut guard = data.write();
        *guard = i + 1;
    }
    assert_eq!(1000, *data.read());
    assert!(watches.iter().all(|w| w.upgrade().is_none()));
}

#[test]
fn readers_share_one_version() {
    let data: RcuLock<u32> = RcuLock::new(9);
    let a = data.read();
    let b = data.read();
    assert!(Arc::ptr_eq(&a, &b));
    {
        let mut guard = data.write();
        *guard = 9;
    }
    let c = data.read();
    assert!(!Arc::ptr_eq(&a, &c));
    assert_eq!(*a, *c);
}

struct Counted {
    value: u32,
    clones: Arc<AtomicUsize>,
}

impl Clone for Counted {
    fn clone(&self) -> Counted {
        self.clones.fetch_add(1, Ordering::SeqCst);
        Counted { value: self.value, clones: self.clones.clone() }
    }
}

#[test]
fn a_write_copies_the_value_once() {
    let clones = Arc::new(AtomicUsize::new(0));
    let data = RcuLock::new(Counted { value: 1, clones: clones.clone() });
    assert_eq!(0, clones.load(Ordering::SeqCst));
    let mut guard = data.write();
    assert_eq!(1, clones.load(Ordering::SeqCst));
    guard.value = 2;
    guard.value += 1;
    assert_eq!(1, data.read().value);
    drop(guard);
    assert_eq!(1, clones.load(Ordering::SeqCst));
    assert_eq!(3, data.read().value);
    assert_eq!(1, clones.load(Ordering::SeqCst));
}

#[test]
fn release_publishes_the_staged_value_itself() {
    let data: RcuLock<Vec<u8>> = RcuLock::new(Vec::new());
    let mut guard = data.write();
    guard.reserve(64);
    guard.push(1);
    let staged_at = guard.as_ptr();
    drop(guard);
    // The buffer that the writer filled is the one now published.
    assert_eq!(staged_at, data.read().as_ptr());
    assert_eq!(vec![1u8], *data.read());
}

#[test]
fn unread_retired_version_goes_with_the_guard() {
    let data: RcuLock<String> = RcuLock::new(String::from("first"));
    let watch = Arc::downgrade(&data.read());
    {
        let mut guard = data.write();
        guard.push('!');
        assert!(watch.upgrade().is_some());
    }
    assert!(watch.upgrade().is_none());
    assert_eq!("first!", data.read().as_str());
}
