use lockfile::Error;
use lockfile::IoErrorKind;
use lockfile::Lockfile;

#[test]
fn smoke() {
    let path = String::from("/tmp/lockfile.smoke");
    let mut lockfile = Lockfile::create(path.clone(), Ok(())).unwrap();
    assert_eq!(lockfile.path(), &path);
    assert!(lockfile.release());
    assert!(!lockfile.is_held());
}

#[test]
fn lock_twice() {
    // trying to lock an already-held path is the distinguished contention error
    let path = String::from("/tmp/lockfile.twice");
    let _lockfile = Lockfile::create(path.clone(), Ok(())).unwrap();
    assert!(matches!(
        Lockfile::create(path, Err(IoErrorKind::AlreadyExists)).unwrap_err(),
        Error::LockTaken
    ));
}

#[test]
fn create_records_path_unmodified() {
    let path = String::from("/tmp/x/lockA");
    let lockfile = Lockfile::create(path.clone(), Ok(())).unwrap();
    assert_eq!(lockfile.path(), &path);
    assert!(lockfile.is_held());
}

#[test]
fn create_under_fresh_parent() {
    // creation at a path whose parent had to be created first: the
    // directory step succeeds, then the exclusive create succeeds
    assert!(matches!(Lockfile::parent_ready(Ok(())), Ok(())));
    let lockfile = Lockfile::create(String::from("/tmp/x/lockA"), Ok(())).unwrap();
    assert_eq!(lockfile.path(), "/tmp/x/lockA");
    assert!(lockfile.is_held());
}

#[test]
fn second_attempt_leaves_first_held() {
    let path = String::from("/tmp/lockfile.contend");
    let first = Lockfile::create(path.clone(), Ok(())).unwrap();
    let second = Lockfile::create(path.clone(), Err(IoErrorKind::AlreadyExists));
    assert!(matches!(second.unwrap_err(), Error::LockTaken));
    assert!(first.is_held());
    assert_eq!(first.path(), &path);
}

#[test]
fn create_propagates_other_failures() {
    let err = Lockfile::create(String::from("/tmp/lockfile.bad"), Err(IoErrorKind::PermissionDenied))
        .unwrap_err();
    assert!(matches!(err, Error::Io(IoErrorKind::PermissionDenied)));
}

#[test]
fn release_reports_removal_due() {
    let mut lockfile = Lockfile::create(String::from("/tmp/lockfile.release"), Ok(())).unwrap();
    assert!(lockfile.release());
    assert!(!lockfile.is_held());
}

#[test]
fn release_at_most_once() {
    // after an explicit release, the destructor path finds nothing to remove
    let mut lockfile = Lockfile::create(String::from("/tmp/lockfile.once"), Ok(())).unwrap();
    assert!(lockfile.release());
    assert!(!lockfile.release());
    assert!(!lockfile.is_held());
}

#[test]
fn drop_path_performs_same_cleanup() {
    // the destructor path runs the same transition: on a lock never
    // explicitly released it is the first to fire, and reports the removal
    let mut lockfile = Lockfile::create(String::from("/tmp/lockfile.drop"), Ok(())).unwrap();
    assert!(lockfile.is_held());
    assert!(lockfile.release());
    assert_eq!(lockfile.path(), "/tmp/lockfile.drop");
}
