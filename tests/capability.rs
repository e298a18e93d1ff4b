use caps::{all, Capability, Error, CAP_COUNT};
use std::str::FromStr;

#[test]
fn test_all_roundtrip() {
    let all = all();
    assert!(all.len() > 0);
    for c in all {
        let name = c.to_string();
        let parsed: Capability = name.parse().unwrap();
        assert_eq!(c, parsed);
    }
}

#[test]
fn test_parse_invalid() {
    let p1 = Capability::from_str("CAP_FOO");
    assert!(p1.is_err());
    let p2: Result<Capability, Error> = "CAP_BAR".parse();
    assert!(p2.is_err());
}

#[test]
fn all_is_complete_and_distinct() {
    let v = all();
    assert_eq!(v.len(), 38);
    assert_eq!(v.len(), CAP_COUNT as usize);
    for (i, c) in v.iter().enumerate() {
        assert_eq!(c.index() as usize, i);
        for d in v.iter().skip(i + 1) {
            assert_ne!(c, d);
        }
    }
}

#[test]
fn index_and_bitmask_values() {
    assert_eq!(Capability::CAP_CHOWN.index(), 0);
    assert_eq!(Capability::CAP_CHOWN.bitmask(), 1);
    assert_eq!(Capability::CAP_SYS_NICE.index(), 23);
    assert_eq!(Capability::CAP_SYS_NICE.bitmask(), 1u64 << 23);
    assert_eq!(Capability::CAP_AUDIT_READ.index(), 37);
    assert_eq!(Capability::CAP_AUDIT_READ.bitmask(), 0x20_0000_0000);
}

#[test]
fn from_index_bounds() {
    assert_eq!(Capability::from_index(0), Some(Capability::CAP_CHOWN));
    assert_eq!(Capability::from_index(37), Some(Capability::CAP_AUDIT_READ));
    assert_eq!(Capability::from_index(38), None);
    assert_eq!(Capability::from_index(255), None);
}

#[test]
fn names_format_and_parse() {
    assert_eq!(Capability::CAP_SYS_ADMIN.to_string(), "CAP_SYS_ADMIN");
    assert_eq!(Capability::CAP_KILL.to_string(), "CAP_KILL");
    assert_eq!(Capability::from_name("CAP_NET_RAW"), Ok(Capability::CAP_NET_RAW));
    assert_eq!(Capability::from_name("CAP_AUDIT_READ"), Ok(Capability::CAP_AUDIT_READ));
}

#[test]
fn parse_rejects_near_misses() {
    assert_eq!(
        Capability::from_name("CAP_FOO"),
        Err(Error::InvalidCapName("CAP_FOO".to_string()))
    );
    assert_eq!(Capability::from_name(""), Err(Error::InvalidCapName(String::new())));
    assert!(Capability::from_name("cap_chown").is_err());
    assert!(Capability::from_name("CAP_CHOWN ").is_err());
    assert!(Capability::from_name("CAP_").is_err());
}
