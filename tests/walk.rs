use libfsntfs::error::{Error, ErrorReport};
use libfsntfs::handles::{HandleRegistry, ObjectKind, Release};
use libfsntfs::iteration::IndexCursor;

#[test]
fn cursor_yields_each_index_once() {
    let mut c = IndexCursor::begin(1, 3, ErrorReport::Absent).unwrap();
    assert_eq!(c.remaining(), 3);
    assert_eq!(c.next_index(), Some(0));
    assert_eq!(c.next_index(), Some(1));
    assert_eq!(c.next_index(), Some(2));
    assert_eq!(c.next_index(), None);
    assert_eq!(c.next_index(), None);
    assert_eq!(c.remaining(), 0);
}

#[test]
fn new_cursor_walks_again() {
    let mut first = IndexCursor::begin(1, 4, ErrorReport::Absent).unwrap();
    let mut second = IndexCursor::begin(1, 4, ErrorReport::Absent).unwrap();
    let a = first.drain();
    assert_eq!(a, vec![0, 1, 2, 3]);
    assert_eq!(first.next_index(), None);
    assert_eq!(second.drain(), a);
}

#[test]
fn drain_continues_from_position() {
    let mut c = IndexCursor::new(5);
    c.next_index();
    c.next_index();
    assert_eq!(c.drain(), vec![2, 3, 4]);
    assert_eq!(c.drain(), Vec::<i32>::new());
}

#[test]
fn empty_collection_yields_nothing() {
    let mut c = IndexCursor::begin(1, 0, ErrorReport::Absent).unwrap();
    assert_eq!(c.next_index(), None);
}

#[test]
fn failed_count_fails_cursor_creation() {
    let r = IndexCursor::begin(-1, 3, ErrorReport::Present { printed: 3, text: b"bad\0".to_vec() });
    assert!(matches!(r, Err(Error::NativeCallFailed(ref e)) if e.message == "bad"));
    assert!(matches!(IndexCursor::begin(1, -1, ErrorReport::Absent), Err(Error::OpaqueFailure)));
}

#[test]
fn registry_releases_children_before_parent() {
    let mut reg = HandleRegistry::new();
    let volume = reg.wrap(None, ObjectKind::Volume, 0x100);
    let entry = reg.wrap(Some(volume), ObjectKind::FileEntry, 0x200);
    let attr = reg.wrap(Some(entry), ObjectKind::Attribute, 0x300);
    assert!(reg.has_live_children(volume));
    assert!(matches!(reg.release(volume), Release::ChildrenAlive));
    assert!(matches!(reg.release(entry), Release::ChildrenAlive));
    assert!(matches!(reg.release(attr), Release::Freed(0x300)));
    assert!(matches!(reg.release(entry), Release::Freed(0x200)));
    assert!(matches!(reg.release(volume), Release::Freed(0x100)));
    assert!(!reg.is_live(volume));
}

#[test]
fn registry_frees_each_handle_once() {
    let mut reg = HandleRegistry::new();
    let volume = reg.wrap(None, ObjectKind::Volume, 0x100);
    assert!(matches!(reg.release(volume), Release::Freed(0x100)));
    assert!(matches!(reg.release(volume), Release::NotLive));
    assert!(reg.get(volume).is_none());
}

#[test]
fn registry_reuses_slots_without_reviving_stale_ids() {
    let mut reg = HandleRegistry::new();
    let volume = reg.wrap(None, ObjectKind::Volume, 0x100);
    let a = reg.wrap(Some(volume), ObjectKind::FileEntry, 0x200);
    assert!(matches!(reg.release(a), Release::Freed(0x200)));
    let b = reg.wrap(Some(volume), ObjectKind::DataStream, 0x200);
    assert_ne!(a, b);
    assert!(!reg.is_live(a));
    assert!(reg.is_live(b));
    let owned = reg.get(b).unwrap();
    assert_eq!(owned.kind, ObjectKind::DataStream);
    assert_eq!(owned.token, 0x200);
    assert_eq!(owned.parent, Some(volume));
    assert!(matches!(reg.release(a), Release::NotLive));
}

#[test]
fn registry_knows_owned_tokens() {
    let mut reg = HandleRegistry::new();
    assert!(!reg.owns_token(0x100));
    let volume = reg.wrap(None, ObjectKind::Volume, 0x100);
    assert!(reg.owns_token(0x100));
    assert!(!reg.owns_token(0x101));
    assert_eq!(reg.get(volume).unwrap().parent, None);
    reg.release(volume);
    assert!(!reg.owns_token(0x100));
}
