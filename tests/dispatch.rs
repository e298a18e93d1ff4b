use caps::{all, clear, drop, has_cap, raise, read, CapSet, Capability, Control, Error, Plan};

const SETS: [CapSet; 5] = [
    CapSet::Ambient,
    CapSet::Bounding,
    CapSet::Effective,
    CapSet::Inheritable,
    CapSet::Permitted,
];

#[test]
fn bounding_never_raised_nor_assigned() {
    for c in all() {
        assert_eq!(raise(None, CapSet::Bounding, c), Err(Error::Unsupported));
        assert_eq!(raise(Some(0), CapSet::Bounding, c), Err(Error::Unsupported));
        assert_eq!(raise(Some(42), CapSet::Bounding, c), Err(Error::Unsupported));
    }
    assert_eq!(caps::set(None, CapSet::Bounding, &vec![]), Err(Error::Unsupported));
    assert_eq!(caps::set(None, CapSet::Bounding, &all()), Err(Error::Unsupported));
}

#[test]
fn other_threads_only_for_posix_sets() {
    let c = Capability::CAP_NET_ADMIN;
    for cset in [CapSet::Ambient, CapSet::Bounding] {
        assert_eq!(has_cap(Some(1234), cset, c), Err(Error::Unsupported));
        assert_eq!(read(Some(1234), cset), Err(Error::Unsupported));
        assert_eq!(caps::set(Some(1234), cset, &vec![c]), Err(Error::Unsupported));
        assert_eq!(clear(Some(1234), cset), Err(Error::Unsupported));
        assert_eq!(raise(Some(1234), cset, c), Err(Error::Unsupported));
        assert_eq!(drop(Some(-1), cset, c), Err(Error::Unsupported));
    }
    for cset in [CapSet::Effective, CapSet::Inheritable, CapSet::Permitted] {
        assert_eq!(has_cap(Some(1234), cset, c), Ok(Plan::Posix(1234)));
        assert_eq!(read(Some(1234), cset), Ok(Plan::Posix(1234)));
        assert_eq!(caps::set(Some(1234), cset, &vec![c]), Ok(Plan::Posix(1234)));
        assert_eq!(clear(Some(1234), cset), Ok(Plan::Posix(1234)));
        assert_eq!(raise(Some(1234), cset, c), Ok(Plan::Posix(1234)));
        assert_eq!(drop(Some(1234), cset, c), Ok(Plan::Posix(1234)));
    }
}

#[test]
fn current_thread_by_default() {
    for cset in SETS {
        assert_eq!(clear(None, cset), clear(Some(0), cset));
        assert_eq!(read(None, cset), read(Some(0), cset));
    }
    assert_eq!(has_cap(None, CapSet::Permitted, Capability::CAP_KILL), Ok(Plan::Posix(0)));
}

#[test]
fn ambient_requests() {
    let c = Capability::CAP_SYS_NICE;
    assert_eq!(
        has_cap(None, CapSet::Ambient, c),
        Ok(Plan::Control(vec![Control::AmbientIsSet(c)]))
    );
    assert_eq!(raise(None, CapSet::Ambient, c), Ok(Plan::Control(vec![Control::AmbientRaise(c)])));
    assert_eq!(drop(None, CapSet::Ambient, c), Ok(Plan::Control(vec![Control::AmbientLower(c)])));
    assert_eq!(clear(None, CapSet::Ambient), Ok(Plan::Control(vec![Control::AmbientClearAll])));
    let value = vec![Capability::CAP_CHOWN, Capability::CAP_KILL];
    assert_eq!(
        caps::set(None, CapSet::Ambient, &value),
        Ok(Plan::Control(vec![
            Control::AmbientClearAll,
            Control::AmbientRaise(Capability::CAP_CHOWN),
            Control::AmbientRaise(Capability::CAP_KILL),
        ]))
    );
    assert_eq!(
        caps::set(None, CapSet::Ambient, &vec![]),
        Ok(Plan::Control(vec![Control::AmbientClearAll]))
    );
    let probes: Vec<Control> = all().into_iter().map(Control::AmbientIsSet).collect();
    assert_eq!(read(None, CapSet::Ambient), Ok(Plan::Control(probes)));
}

#[test]
fn bounding_requests() {
    let c = Capability::CAP_SETPCAP;
    assert_eq!(
        has_cap(None, CapSet::Bounding, c),
        Ok(Plan::Control(vec![Control::BoundingRead(c)]))
    );
    assert_eq!(drop(None, CapSet::Bounding, c), Ok(Plan::Control(vec![Control::BoundingDrop(c)])));
    let probes: Vec<Control> = all().into_iter().map(Control::BoundingRead).collect();
    assert_eq!(read(None, CapSet::Bounding), Ok(Plan::Control(probes)));
    let drops: Vec<Control> = all().into_iter().map(Control::BoundingDrop).collect();
    assert_eq!(clear(None, CapSet::Bounding), Ok(Plan::Control(drops)));
}

#[test]
fn bounding_drop_cannot_be_undone() {
    let c = Capability::CAP_SYS_ADMIN;
    assert_eq!(drop(None, CapSet::Bounding, c), Ok(Plan::Control(vec![Control::BoundingDrop(c)])));
    assert_eq!(raise(None, CapSet::Bounding, c), Err(Error::Unsupported));
    assert_eq!(caps::set(None, CapSet::Bounding, &vec![c]), Err(Error::Unsupported));
}

#[test]
fn clear_twice_gives_the_same_requests() {
    for cset in SETS {
        assert!(clear(None, cset).is_ok());
        assert_eq!(clear(None, cset), clear(None, cset));
    }
}
