use posish::userfaultfd::UserfaultfdFlags;

// The flag values below are those of x86-64 and aarch64.
#[test]
fn flag_bits_come_from_open_flags() {
    assert_eq!(UserfaultfdFlags::cloexec().bits(), 0o2000000);
    assert_eq!(UserfaultfdFlags::nonblock().bits(), 0o4000);
    assert_eq!(UserfaultfdFlags::all().bits(), 0o2004000);
    assert_eq!(UserfaultfdFlags::empty().bits(), 0);
}

#[test]
fn union_sets_both() {
    let both = UserfaultfdFlags::cloexec().union(UserfaultfdFlags::nonblock());
    assert_eq!(both, UserfaultfdFlags::all());
    assert!(both.contains(UserfaultfdFlags::cloexec()));
    assert!(both.contains(UserfaultfdFlags::nonblock()));
    assert_eq!(
        UserfaultfdFlags::nonblock().union(UserfaultfdFlags::cloexec()),
        both
    );
}

#[test]
fn insert_and_remove() {
    let mut flags = UserfaultfdFlags::empty();
    assert!(flags.is_empty());
    flags.insert(UserfaultfdFlags::nonblock());
    assert!(flags.contains(UserfaultfdFlags::nonblock()));
    assert!(!flags.contains(UserfaultfdFlags::cloexec()));
    flags.remove(UserfaultfdFlags::nonblock());
    assert!(flags.is_empty());
    assert!(!flags.contains(UserfaultfdFlags::nonblock()));
}

#[test]
fn empty_is_contained_everywhere() {
    assert!(UserfaultfdFlags::empty().contains(UserfaultfdFlags::empty()));
    assert!(UserfaultfdFlags::cloexec().contains(UserfaultfdFlags::empty()));
}

#[test]
fn from_bits_accepts_flag_bits_only() {
    assert_eq!(UserfaultfdFlags::from_bits(0o2000000), Some(UserfaultfdFlags::cloexec()));
    assert_eq!(UserfaultfdFlags::from_bits(0), Some(UserfaultfdFlags::empty()));
    assert_eq!(UserfaultfdFlags::from_bits(0o2004000), Some(UserfaultfdFlags::all()));
    assert_eq!(UserfaultfdFlags::from_bits(1), None);
    assert_eq!(UserfaultfdFlags::from_bits(0o2004001), None);
}

#[test]
fn from_bits_round_trips() {
    let flags = UserfaultfdFlags::all();
    assert_eq!(UserfaultfdFlags::from_bits(flags.bits()), Some(flags));
}

#[test]
fn from_bits_truncate_drops_other_bits() {
    assert_eq!(UserfaultfdFlags::from_bits_truncate(0xffff_ffff), UserfaultfdFlags::all());
    assert_eq!(UserfaultfdFlags::from_bits_truncate(0o4001), UserfaultfdFlags::nonblock());
    assert_eq!(UserfaultfdFlags::from_bits_truncate(1), UserfaultfdFlags::empty());
}

#[test]
fn within_an_explicit_mask() {
    let all = UserfaultfdFlags::all();
    assert_eq!(UserfaultfdFlags::from_bits_within(0o4000, all), Some(UserfaultfdFlags::nonblock()));
    assert_eq!(UserfaultfdFlags::from_bits_within(0o4000, UserfaultfdFlags::cloexec()), None);
    assert_eq!(
        UserfaultfdFlags::from_bits_truncate_within(0o2004000, UserfaultfdFlags::cloexec()),
        UserfaultfdFlags::cloexec()
    );
    assert_eq!(
        UserfaultfdFlags::from_bits_truncate_within(0o2004000, UserfaultfdFlags::empty()),
        UserfaultfdFlags::empty()
    );
}
