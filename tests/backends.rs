use caps::base::{
    self, caps_of_mask, mask, mask_of_caps, with_mask, words, CapUserData, KernelCaps,
    LINUX_CAPABILITY_VERSION_1, LINUX_CAPABILITY_VERSION_2, LINUX_CAPABILITY_VERSION_3,
};
use caps::control::{caps_of_answers, reply_done, reply_flag};
use caps::{all, CapSet, Capability, Error};

fn data(effective: u32, permitted: u32, inheritable: u32) -> CapUserData {
    CapUserData { effective, permitted, inheritable }
}

fn kernel(version: u32, low: CapUserData, high: CapUserData) -> KernelCaps {
    KernelCaps { version, low, high }
}

#[test]
fn words_per_version() {
    assert_eq!(words(LINUX_CAPABILITY_VERSION_1), 1);
    assert_eq!(words(LINUX_CAPABILITY_VERSION_2), 2);
    assert_eq!(words(LINUX_CAPABILITY_VERSION_3), 2);
}

#[test]
fn masks_join_the_two_words() {
    let k = kernel(LINUX_CAPABILITY_VERSION_3, data(1, 2, 3), data(4, 5, 6));
    assert_eq!(mask(&k, CapSet::Effective), (4u64 << 32) | 1);
    assert_eq!(mask(&k, CapSet::Permitted), (5u64 << 32) | 2);
    assert_eq!(mask(&k, CapSet::Inheritable), (6u64 << 32) | 3);
    let old = kernel(LINUX_CAPABILITY_VERSION_1, data(1, 2, 3), data(4, 5, 6));
    assert_eq!(mask(&old, CapSet::Effective), 1);
}

#[test]
fn with_mask_touches_one_set() {
    let k = kernel(LINUX_CAPABILITY_VERSION_3, data(1, 2, 3), data(4, 5, 6));
    let r = with_mask(&k, CapSet::Permitted, 0x0000_0007_0000_0009);
    assert_eq!(r, kernel(LINUX_CAPABILITY_VERSION_3, data(1, 9, 3), data(4, 7, 6)));
    let old = kernel(LINUX_CAPABILITY_VERSION_1, data(1, 2, 3), data(4, 5, 6));
    let r = with_mask(&old, CapSet::Effective, 0x0000_0007_0000_0009);
    assert_eq!(r, kernel(LINUX_CAPABILITY_VERSION_1, data(9, 2, 3), data(4, 5, 6)));
}

#[test]
fn mask_and_collection_convert() {
    let v = vec![Capability::CAP_CHOWN, Capability::CAP_KILL, Capability::CAP_MAC_ADMIN];
    let m = mask_of_caps(&v);
    assert_eq!(m, 1 | (1 << 5) | (1 << 33));
    assert_eq!(caps_of_mask(m), v);
    assert_eq!(mask_of_caps(&vec![]), 0);
    assert_eq!(mask_of_caps(&vec![Capability::CAP_KILL, Capability::CAP_KILL]), 1 << 5);
}

#[test]
fn unknown_bits_are_ignored() {
    assert_eq!(caps_of_mask(1u64 << 63), vec![]);
    assert_eq!(caps_of_mask((1u64 << 40) | (1 << 37)), vec![Capability::CAP_AUDIT_READ]);
    assert_eq!(caps_of_mask(u64::MAX), all());
}

#[test]
fn raise_has_clear_on_effective() {
    let c = Capability::CAP_NET_BIND_SERVICE;
    let k = kernel(LINUX_CAPABILITY_VERSION_3, data(0, 1 << 10, 0), data(0, 0, 0));
    assert!(base::has_cap(&k, CapSet::Permitted, c));
    assert!(!base::has_cap(&k, CapSet::Effective, c));
    let k = base::raise(&k, CapSet::Effective, c);
    assert!(base::has_cap(&k, CapSet::Effective, c));
    assert!(base::has_cap(&k, CapSet::Permitted, c));
    assert_eq!(base::read(&k, CapSet::Effective), vec![c]);
    let k = base::clear(&k, CapSet::Effective);
    assert_eq!(base::read(&k, CapSet::Effective), vec![]);
    assert_eq!(base::read(&k, CapSet::Permitted), vec![c]);
}

#[test]
fn clear_twice_stays_empty() {
    let k = kernel(LINUX_CAPABILITY_VERSION_3, data(0xff, 0xff, 0xff), data(0x3f, 0x3f, 0x3f));
    let once = base::clear(&k, CapSet::Inheritable);
    let twice = base::clear(&once, CapSet::Inheritable);
    assert_eq!(once, twice);
    assert_eq!(base::read(&once, CapSet::Inheritable), vec![]);
    assert_eq!(base::read(&twice, CapSet::Inheritable), vec![]);
    assert_eq!(mask(&twice, CapSet::Effective), 0x3f_0000_00ff);
}

#[test]
fn drop_keeps_other_bits() {
    let k = kernel(LINUX_CAPABILITY_VERSION_3, data(0b111, 0, 0), data(0b10, 0, 0));
    let r = base::drop(&k, CapSet::Effective, Capability::CAP_DAC_OVERRIDE);
    assert_eq!(mask(&r, CapSet::Effective), (0b10u64 << 32) | 0b101);
    let r = base::drop(&r, CapSet::Effective, Capability::CAP_MAC_ADMIN);
    assert_eq!(mask(&r, CapSet::Effective), 0b101);
}

#[test]
fn set_assigns_exactly() {
    let k = kernel(LINUX_CAPABILITY_VERSION_3, data(0, 0xffff, 0), data(0, 0, 0));
    let v = vec![Capability::CAP_SYSLOG, Capability::CAP_FOWNER];
    let r = base::set(&k, CapSet::Permitted, &v);
    assert_eq!(
        base::read(&r, CapSet::Permitted),
        vec![Capability::CAP_FOWNER, Capability::CAP_SYSLOG]
    );
    assert_eq!(r.high.permitted, 1 << 2);
    assert_eq!(r.low.permitted, 1 << 3);
}

#[test]
fn first_version_carries_low_bits_only() {
    let k = kernel(LINUX_CAPABILITY_VERSION_1, data(0, 0, 0), data(0, 0, 0));
    let r = base::raise(&k, CapSet::Effective, Capability::CAP_MAC_ADMIN);
    assert!(!base::has_cap(&r, CapSet::Effective, Capability::CAP_MAC_ADMIN));
    let r = base::raise(&k, CapSet::Effective, Capability::CAP_SETFCAP);
    assert!(base::has_cap(&r, CapSet::Effective, Capability::CAP_SETFCAP));
}

#[test]
fn kernel_replies() {
    assert_eq!(reply_flag(1, 0), Ok(true));
    assert_eq!(reply_flag(0, 0), Ok(false));
    assert_eq!(reply_flag(-1, 1), Err(Error::Syscall(1)));
    assert_eq!(reply_done(0, 0), Ok(()));
    assert_eq!(reply_done(-1, 3), Err(Error::Syscall(3)));
}

#[test]
fn answers_to_probes() {
    let mut answers = vec![false; 38];
    answers[0] = true;
    answers[23] = true;
    answers[37] = true;
    assert_eq!(
        caps_of_answers(&answers),
        vec![Capability::CAP_CHOWN, Capability::CAP_SYS_NICE, Capability::CAP_AUDIT_READ]
    );
    assert_eq!(caps_of_answers(&vec![false; 38]), vec![]);
    assert_eq!(caps_of_answers(&vec![true; 38]), all());
}
