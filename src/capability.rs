use vstd::prelude::*;

use crate::errors::Error;

verus! {

/// Number of capabilities known to this library; their indices are `0..CAP_COUNT`.
pub const CAP_COUNT: u8 = 38;

/// Linux capabilities.
///
/// All capabilities supported by Linux, including standard POSIX and custom
/// ones, in the kernel's bit order. See `capabilities(7)`.
#[allow(non_camel_case_types)]
#[derive(PartialEq, Eq, Structural, Hash, Debug, Clone, Copy)]
pub enum Capability {
    CAP_CHOWN,
    CAP_DAC_OVERRIDE,
    CAP_DAC_READ_SEARCH,
    CAP_FOWNER,
    CAP_FSETID,
    CAP_KILL,
    CAP_SETGID,
    CAP_SETUID,
    CAP_SETPCAP,
    CAP_LINUX_IMMUTABLE,
    CAP_NET_BIND_SERVICE,
    CAP_NET_BROADCAST,
    CAP_NET_ADMIN,
    CAP_NET_RAW,
    CAP_IPC_LOCK,
    CAP_IPC_OWNER,
    CAP_SYS_MODULE,
    CAP_SYS_RAWIO,
    CAP_SYS_CHROOT,
    CAP_SYS_PTRACE,
    CAP_SYS_PACCT,
    CAP_SYS_ADMIN,
    CAP_SYS_BOOT,
    CAP_SYS_NICE,
    CAP_SYS_RESOURCE,
    CAP_SYS_TIME,
    CAP_SYS_TTY_CONFIG,
    CAP_MKNOD,
    CAP_LEASE,
    CAP_AUDIT_WRITE,
    CAP_AUDIT_CONTROL,
    CAP_SETFCAP,
    CAP_MAC_OVERRIDE,
    CAP_MAC_ADMIN,
    CAP_SYSLOG,
    CAP_WAKE_ALARM,
    CAP_BLOCK_SUSPEND,
    CAP_AUDIT_READ,
}

impl Capability {
    /// The kernel-defined index of this capability.
    pub open spec fn spec_index(self) -> u8 {
        match self {
            Capability::CAP_CHOWN => 0,
            Capability::CAP_DAC_OVERRIDE => 1,
            Capability::CAP_DAC_READ_SEARCH => 2,
            Capability::CAP_FOWNER => 3,
            Capability::CAP_FSETID => 4,
            Capability::CAP_KILL => 5,
            Capability::CAP_SETGID => 6,
            Capability::CAP_SETUID => 7,
            Capability::CAP_SETPCAP => 8,
            Capability::CAP_LINUX_IMMUTABLE => 9,
            Capability::CAP_NET_BIND_SERVICE => 10,
            Capability::CAP_NET_BROADCAST => 11,
            Capability::CAP_NET_ADMIN => 12,
            Capability::CAP_NET_RAW => 13,
            Capability::CAP_IPC_LOCK => 14,
            Capability::CAP_IPC_OWNER => 15,
            Capability::CAP_SYS_MODULE => 16,
            Capability::CAP_SYS_RAWIO => 17,
            Capability::CAP_SYS_CHROOT => 18,
            Capability::CAP_SYS_PTRACE => 19,
            Capability::CAP_SYS_PACCT => 20,
            Capability::CAP_SYS_ADMIN => 21,
            Capability::CAP_SYS_BOOT => 22,
            Capability::CAP_SYS_NICE => 23,
            Capability::CAP_SYS_RESOURCE => 24,
            Capability::CAP_SYS_TIME => 25,
            Capability::CAP_SYS_TTY_CONFIG => 26,
            Capability::CAP_MKNOD => 27,
            Capability::CAP_LEASE => 28,
            Capability::CAP_AUDIT_WRITE => 29,
            Capability::CAP_AUDIT_CONTROL => 30,
            Capability::CAP_SETFCAP => 31,
            Capability::CAP_MAC_OVERRIDE => 32,
            Capability::CAP_MAC_ADMIN => 33,
            Capability::CAP_SYSLOG => 34,
            Capability::CAP_WAKE_ALARM => 35,
            Capability::CAP_BLOCK_SUSPEND => 36,
            Capability::CAP_AUDIT_READ => 37,
        }
    }

    /// The canonical, kernel-recognised name of this capability.
    pub open spec fn spec_name(self) -> Seq<char> {
        match self {
            Capability::CAP_CHOWN => "CAP_CHOWN"@,
            Capability::CAP_DAC_OVERRIDE => "CAP_DAC_OVERRIDE"@,
            Capability::CAP_DAC_READ_SEARCH => "CAP_DAC_READ_SEARCH"@,
            Capability::CAP_FOWNER => "CAP_FOWNER"@,
            Capability::CAP_FSETID => "CAP_FSETID"@,
            Capability::CAP_KILL => "CAP_KILL"@,
            Capability::CAP_SETGID => "CAP_SETGID"@,
            Capability::CAP_SETUID => "CAP_SETUID"@,
            Capability::CAP_SETPCAP => "CAP_SETPCAP"@,
            Capability::CAP_LINUX_IMMUTABLE => "CAP_LINUX_IMMUTABLE"@,
            Capability::CAP_NET_BIND_SERVICE => "CAP_NET_BIND_SERVICE"@,
            Capability::CAP_NET_BROADCAST => "CAP_NET_BROADCAST"@,
            Capability::CAP_NET_ADMIN => "CAP_NET_ADMIN"@,
            Capability::CAP_NET_RAW => "CAP_NET_RAW"@,
            Capability::CAP_IPC_LOCK => "CAP_IPC_LOCK"@,
            Capability::CAP_IPC_OWNER => "CAP_IPC_OWNER"@,
            Capability::CAP_SYS_MODULE => "CAP_SYS_MODULE"@,
            Capability::CAP_SYS_RAWIO => "CAP_SYS_RAWIO"@,
            Capability::CAP_SYS_CHROOT => "CAP_SYS_CHROOT"@,
            Capability::CAP_SYS_PTRACE => "CAP_SYS_PTRACE"@,
            Capability::CAP_SYS_PACCT => "CAP_SYS_PACCT"@,
            Capability::CAP_SYS_ADMIN => "CAP_SYS_ADMIN"@,
            Capability::CAP_SYS_BOOT => "CAP_SYS_BOOT"@,
            Capability::CAP_SYS_NICE => "CAP_SYS_NICE"@,
            Capability::CAP_SYS_RESOURCE => "CAP_SYS_RESOURCE"@,
            Capability::CAP_SYS_TIME => "CAP_SYS_TIME"@,
            Capability::CAP_SYS_TTY_CONFIG => "CAP_SYS_TTY_CONFIG"@,
            Capability::CAP_MKNOD => "CAP_MKNOD"@,
            Capability::CAP_LEASE => "CAP_LEASE"@,
            Capability::CAP_AUDIT_WRITE => "CAP_AUDIT_WRITE"@,
            Capability::CAP_AUDIT_CONTROL => "CAP_AUDIT_CONTROL"@,
            Capability::CAP_SETFCAP => "CAP_SETFCAP"@,
            Capability::CAP_MAC_OVERRIDE => "CAP_MAC_OVERRIDE"@,
            Capability::CAP_MAC_ADMIN => "CAP_MAC_ADMIN"@,
            Capability::CAP_SYSLOG => "CAP_SYSLOG"@,
            Capability::CAP_WAKE_ALARM => "CAP_WAKE_ALARM"@,
            Capability::CAP_BLOCK_SUSPEND => "CAP_BLOCK_SUSPEND"@,
            Capability::CAP_AUDIT_READ => "CAP_AUDIT_READ"@,
        }
    }

    /// The bitmask of this capability: bit `index` alone.
    pub open spec fn spec_bitmask(self) -> u64 {
        1u64 << self.spec_index()
    }

    /// Returns the bitmask corresponding to this capability value.
    pub fn bitmask(&self) -> (r: u64)
        ensures
            r == self.spec_bitmask(),
    {
        1u64 << self.index()
    }

    /// Returns the index of this capability, i.e. its kernel-defined value.
    pub fn index(&self) -> (r: u8)
        ensures
            r == self.spec_index(),
            r < CAP_COUNT,
    {
        match self {
            Capability::CAP_CHOWN => 0,
            Capability::CAP_DAC_OVERRIDE => 1,
            Capability::CAP_DAC_READ_SEARCH => 2,
            Capability::CAP_FOWNER => 3,
            Capability::CAP_FSETID => 4,
            Capability::CAP_KILL => 5,
            Capability::CAP_SETGID => 6,
            Capability::CAP_SETUID => 7,
            Capability::CAP_SETPCAP => 8,
            Capability::CAP_LINUX_IMMUTABLE => 9,
            Capability::CAP_NET_BIND_SERVICE => 10,
            Capability::CAP_NET_BROADCAST => 11,
            Capability::CAP_NET_ADMIN => 12,
            Capability::CAP_NET_RAW => 13,
            Capability::CAP_IPC_LOCK => 14,
            Capability::CAP_IPC_OWNER => 15,
            Capability::CAP_SYS_MODULE => 16,
            Capability::CAP_SYS_RAWIO => 17,
            Capability::CAP_SYS_CHROOT => 18,
            Capability::CAP_SYS_PTRACE => 19,
            Capability::CAP_SYS_PACCT => 20,
            Capability::CAP_SYS_ADMIN => 21,
            Capability::CAP_SYS_BOOT => 22,
            Capability::CAP_SYS_NICE => 23,
            Capability::CAP_SYS_RESOURCE => 24,
            Capability::CAP_SYS_TIME => 25,
            Capability::CAP_SYS_TTY_CONFIG => 26,
            Capability::CAP_MKNOD => 27,
            Capability::CAP_LEASE => 28,
            Capability::CAP_AUDIT_WRITE => 29,
            Capability::CAP_AUDIT_CONTROL => 30,
            Capability::CAP_SETFCAP => 31,
            Capability::CAP_MAC_OVERRIDE => 32,
            Capability::CAP_MAC_ADMIN => 33,
            Capability::CAP_SYSLOG => 34,
            Capability::CAP_WAKE_ALARM => 35,
            Capability::CAP_BLOCK_SUSPEND => 36,
            Capability::CAP_AUDIT_READ => 37,
        }
    }

    /// The capability whose index is `i`, if there is one.
    pub fn from_index(i: u8) -> (r: Option<Capability>)
        ensures
            r is Some <==> i < CAP_COUNT,
            r matches Some(c) ==> c.spec_index() == i,
    {
        match i {
            0 => Some(Capability::CAP_CHOWN),
            1 => Some(Capability::CAP_DAC_OVERRIDE),
            2 => Some(Capability::CAP_DAC_READ_SEARCH),
            3 => Some(Capability::CAP_FOWNER),
            4 => Some(Capability::CAP_FSETID),
            5 => Some(Capability::CAP_KILL),
            6 => Some(Capability::CAP_SETGID),
            7 => Some(Capability::CAP_SETUID),
            8 => Some(Capability::CAP_SETPCAP),
            9 => Some(Capability::CAP_LINUX_IMMUTABLE),
            10 => Some(Capability::CAP_NET_BIND_SERVICE),
            11 => Some(Capability::CAP_NET_BROADCAST),
            12 => Some(Capability::CAP_NET_ADMIN),
            13 => Some(Capability::CAP_NET_RAW),
            14 => Some(Capability::CAP_IPC_LOCK),
            15 => Some(Capability::CAP_IPC_OWNER),
            16 => Some(Capability::CAP_SYS_MODULE),
            17 => Some(Capability::CAP_SYS_RAWIO),
            18 => Some(Capability::CAP_SYS_CHROOT),
            19 => Some(Capability::CAP_SYS_PTRACE),
            20 => Some(Capability::CAP_SYS_PACCT),
            21 => Some(Capability::CAP_SYS_ADMIN),
            22 => Some(Capability::CAP_SYS_BOOT),
            23 => Some(Capability::CAP_SYS_NICE),
            24 => Some(Capability::CAP_SYS_RESOURCE),
            25 => Some(Capability::CAP_SYS_TIME),
            26 => Some(Capability::CAP_SYS_TTY_CONFIG),
            27 => Some(Capability::CAP_MKNOD),
            28 => Some(Capability::CAP_LEASE),
            29 => Some(Capability::CAP_AUDIT_WRITE),
            30 => Some(Capability::CAP_AUDIT_CONTROL),
            31 => Some(Capability::CAP_SETFCAP),
            32 => Some(Capability::CAP_MAC_OVERRIDE),
            33 => Some(Capability::CAP_MAC_ADMIN),
            34 => Some(Capability::CAP_SYSLOG),
            35 => Some(Capability::CAP_WAKE_ALARM),
            36 => Some(Capability::CAP_BLOCK_SUSPEND),
            37 => Some(Capability::CAP_AUDIT_READ),
            _ => None,
        }
    }

    /// Returns the canonical name of this capability.
    pub fn to_string(&self) -> (r: String)
        ensures
            r@ == self.spec_name(),
    {
        let name: &str = match self {
            Capability::CAP_CHOWN => "CAP_CHOWN",
            Capability::CAP_DAC_OVERRIDE => "CAP_DAC_OVERRIDE",
            Capability::CAP_DAC_READ_SEARCH => "CAP_DAC_READ_SEARCH",
            Capability::CAP_FOWNER => "CAP_FOWNER",
            Capability::CAP_FSETID => "CAP_FSETID",
            Capability::CAP_KILL => "CAP_KILL",
            Capability::CAP_SETGID => "CAP_SETGID",
            Capability::CAP_SETUID => "CAP_SETUID",
            Capability::CAP_SETPCAP => "CAP_SETPCAP",
            Capability::CAP_LINUX_IMMUTABLE => "CAP_LINUX_IMMUTABLE",
            Capability::CAP_NET_BIND_SERVICE => "CAP_NET_BIND_SERVICE",
            Capability::CAP_NET_BROADCAST => "CAP_NET_BROADCAST",
            Capability::CAP_NET_ADMIN => "CAP_NET_ADMIN",
            Capability::CAP_NET_RAW => "CAP_NET_RAW",
            Capability::CAP_IPC_LOCK => "CAP_IPC_LOCK",
            Capability::CAP_IPC_OWNER => "CAP_IPC_OWNER",
            Capability::CAP_SYS_MODULE => "CAP_SYS_MODULE",
            Capability::CAP_SYS_RAWIO => "CAP_SYS_RAWIO",
            Capability::CAP_SYS_CHROOT => "CAP_SYS_CHROOT",
            Capability::CAP_SYS_PTRACE => "CAP_SYS_PTRACE",
            Capability::CAP_SYS_PACCT => "CAP_SYS_PACCT",
            Capability::CAP_SYS_ADMIN => "CAP_SYS_ADMIN",
            Capability::CAP_SYS_BOOT => "CAP_SYS_BOOT",
            Capability::CAP_SYS_NICE => "CAP_SYS_NICE",
            Capability::CAP_SYS_RESOURCE => "CAP_SYS_RESOURCE",
            Capability::CAP_SYS_TIME => "CAP_SYS_TIME",
            Capability::CAP_SYS_TTY_CONFIG => "CAP_SYS_TTY_CONFIG",
            Capability::CAP_MKNOD => "CAP_MKNOD",
            Capability::CAP_LEASE => "CAP_LEASE",
            Capability::CAP_AUDIT_WRITE => "CAP_AUDIT_WRITE",
            Capability::CAP_AUDIT_CONTROL => "CAP_AUDIT_CONTROL",
            Capability::CAP_SETFCAP => "CAP_SETFCAP",
            Capability::CAP_MAC_OVERRIDE => "CAP_MAC_OVERRIDE",
            Capability::CAP_MAC_ADMIN => "CAP_MAC_ADMIN",
            Capability::CAP_SYSLOG => "CAP_SYSLOG",
            Capability::CAP_WAKE_ALARM => "CAP_WAKE_ALARM",
            Capability::CAP_BLOCK_SUSPEND => "CAP_BLOCK_SUSPEND",
            Capability::CAP_AUDIT_READ => "CAP_AUDIT_READ",
        };
        name.to_owned()
    }
}


/// Every capability's index is below `CAP_COUNT`, and the index determines it.
pub proof fn lemma_index_injective(c1: Capability, c2: Capability)
    ensures
        c1.spec_index() < CAP_COUNT,
        c1.spec_index() == c2.spec_index() ==> c1 == c2,
{
}

/// A few characters that already tell capability names apart.
spec fn name_key(s: Seq<char>) -> (int, char, char, char) {
    (s.len() as int, s[4], s[s.len() - 3], s[s.len() - 4])
}

spec fn key_of(c: Capability) -> (int, char, char, char) {
    match c {
        Capability::CAP_CHOWN => (9, 'C', 'O', 'H'),
        Capability::CAP_DAC_OVERRIDE => (16, 'D', 'I', 'R'),
        Capability::CAP_DAC_READ_SEARCH => (19, 'D', 'R', 'A'),
        Capability::CAP_FOWNER => (10, 'F', 'N', 'W'),
        Capability::CAP_FSETID => (10, 'F', 'T', 'E'),
        Capability::CAP_KILL => (8, 'K', 'I', 'K'),
        Capability::CAP_SETGID => (10, 'S', 'G', 'T'),
        Capability::CAP_SETUID => (10, 'S', 'U', 'T'),
        Capability::CAP_SETPCAP => (11, 'S', 'C', 'P'),
        Capability::CAP_LINUX_IMMUTABLE => (19, 'L', 'B', 'A'),
        Capability::CAP_NET_BIND_SERVICE => (20, 'N', 'I', 'V'),
        Capability::CAP_NET_BROADCAST => (17, 'N', 'A', 'C'),
        Capability::CAP_NET_ADMIN => (13, 'N', 'M', 'D'),
        Capability::CAP_NET_RAW => (11, 'N', 'R', '_'),
        Capability::CAP_IPC_LOCK => (12, 'I', 'O', 'L'),
        Capability::CAP_IPC_OWNER => (13, 'I', 'N', 'W'),
        Capability::CAP_SYS_MODULE => (14, 'S', 'U', 'D'),
        Capability::CAP_SYS_RAWIO => (13, 'S', 'W', 'A'),
        Capability::CAP_SYS_CHROOT => (14, 'S', 'O', 'R'),
        Capability::CAP_SYS_PTRACE => (14, 'S', 'A', 'R'),
        Capability::CAP_SYS_PACCT => (13, 'S', 'C', 'A'),
        Capability::CAP_SYS_ADMIN => (13, 'S', 'M', 'D'),
        Capability::CAP_SYS_BOOT => (12, 'S', 'O', 'B'),
        Capability::CAP_SYS_NICE => (12, 'S', 'I', 'N'),
        Capability::CAP_SYS_RESOURCE => (16, 'S', 'R', 'U'),
        Capability::CAP_SYS_TIME => (12, 'S', 'I', 'T'),
        Capability::CAP_SYS_TTY_CONFIG => (18, 'S', 'F', 'N'),
        Capability::CAP_MKNOD => (9, 'M', 'N', 'K'),
        Capability::CAP_LEASE => (9, 'L', 'A', 'E'),
        Capability::CAP_AUDIT_WRITE => (15, 'A', 'I', 'R'),
        Capability::CAP_AUDIT_CONTROL => (17, 'A', 'R', 'T'),
        Capability::CAP_SETFCAP => (11, 'S', 'C', 'F'),
        Capability::CAP_MAC_OVERRIDE => (16, 'M', 'I', 'R'),
        Capability::CAP_MAC_ADMIN => (13, 'M', 'M', 'D'),
        Capability::CAP_SYSLOG => (10, 'S', 'L', 'S'),
        Capability::CAP_WAKE_ALARM => (14, 'W', 'A', 'L'),
        Capability::CAP_BLOCK_SUSPEND => (17, 'B', 'E', 'P'),
        Capability::CAP_AUDIT_READ => (14, 'A', 'E', 'R'),
    }
}

proof fn lemma_name_key(c: Capability)
    ensures
        name_key(c.spec_name()) == key_of(c),
{
    match c {
        Capability::CAP_CHOWN => {
            reveal_strlit("CAP_CHOWN");
        },
        Capability::CAP_DAC_OVERRIDE => {
            reveal_strlit("CAP_DAC_OVERRIDE");
        },
        Capability::CAP_DAC_READ_SEARCH => {
            reveal_strlit("CAP_DAC_READ_SEARCH");
        },
        Capability::CAP_FOWNER => {
            reveal_strlit("CAP_FOWNER");
        },
        Capability::CAP_FSETID => {
            reveal_strlit("CAP_FSETID");
        },
        Capability::CAP_KILL => {
            reveal_strlit("CAP_KILL");
        },
        Capability::CAP_SETGID => {
            reveal_strlit("CAP_SETGID");
        },
        Capability::CAP_SETUID => {
            reveal_strlit("CAP_SETUID");
        },
        Capability::CAP_SETPCAP => {
            reveal_strlit("CAP_SETPCAP");
        },
        Capability::CAP_LINUX_IMMUTABLE => {
            reveal_strlit("CAP_LINUX_IMMUTABLE");
        },
        Capability::CAP_NET_BIND_SERVICE => {
            reveal_strlit("CAP_NET_BIND_SERVICE");
        },
        Capability::CAP_NET_BROADCAST => {
            reveal_strlit("CAP_NET_BROADCAST");
        },
        Capability::CAP_NET_ADMIN => {
            reveal_strlit("CAP_NET_ADMIN");
        },
        Capability::CAP_NET_RAW => {
            reveal_strlit("CAP_NET_RAW");
        },
        Capability::CAP_IPC_LOCK => {
            reveal_strlit("CAP_IPC_LOCK");
        },
        Capability::CAP_IPC_OWNER => {
            reveal_strlit("CAP_IPC_OWNER");
        },
        Capability::CAP_SYS_MODULE => {
            reveal_strlit("CAP_SYS_MODULE");
        },
        Capability::CAP_SYS_RAWIO => {
            reveal_strlit("CAP_SYS_RAWIO");
        },
        Capability::CAP_SYS_CHROOT => {
            reveal_strlit("CAP_SYS_CHROOT");
        },
        Capability::CAP_SYS_PTRACE => {
            reveal_strlit("CAP_SYS_PTRACE");
        },
        Capability::CAP_SYS_PACCT => {
            reveal_strlit("CAP_SYS_PACCT");
        },
        Capability::CAP_SYS_ADMIN => {
            reveal_strlit("CAP_SYS_ADMIN");
        },
        Capability::CAP_SYS_BOOT => {
            reveal_strlit("CAP_SYS_BOOT");
        },
        Capability::CAP_SYS_NICE => {
            reveal_strlit("CAP_SYS_NICE");
        },
        Capability::CAP_SYS_RESOURCE => {
            reveal_strlit("CAP_SYS_RESOURCE");
        },
        Capability::CAP_SYS_TIME => {
            reveal_strlit("CAP_SYS_TIME");
        },
        Capability::CAP_SYS_TTY_CONFIG => {
            reveal_strlit("CAP_SYS_TTY_CONFIG");
        },
        Capability::CAP_MKNOD => {
            reveal_strlit("CAP_MKNOD");
        },
        Capability::CAP_LEASE => {
            reveal_strlit("CAP_LEASE");
        },
        Capability::CAP_AUDIT_WRITE => {
            reveal_strlit("CAP_AUDIT_WRITE");
        },
        Capability::CAP_AUDIT_CONTROL => {
            reveal_strlit("CAP_AUDIT_CONTROL");
        },
        Capability::CAP_SETFCAP => {
            reveal_strlit("CAP_SETFCAP");
        },
        Capability::CAP_MAC_OVERRIDE => {
            reveal_strlit("CAP_MAC_OVERRIDE");
        },
        Capability::CAP_MAC_ADMIN => {
            reveal_strlit("CAP_MAC_ADMIN");
        },
        Capability::CAP_SYSLOG => {
            reveal_strlit("CAP_SYSLOG");
        },
        Capability::CAP_WAKE_ALARM => {
            reveal_strlit("CAP_WAKE_ALARM");
        },
        Capability::CAP_BLOCK_SUSPEND => {
            reveal_strlit("CAP_BLOCK_SUSPEND");
        },
        Capability::CAP_AUDIT_READ => {
            reveal_strlit("CAP_AUDIT_READ");
        },
    }
}

/// No two capabilities share a name.
pub proof fn lemma_name_injective(c1: Capability, c2: Capability)
    ensures
        c1.spec_name() == c2.spec_name() ==> c1 == c2,
{
    lemma_name_key(c1);
    lemma_name_key(c2);
}

/// A capability whose name is `s`, if there is one.
pub open spec fn named(s: Seq<char>) -> Option<Capability> {
    if exists|c: Capability| c.spec_name() == s {
        Some(choose|c: Capability| c.spec_name() == s)
    } else {
        None
    }
}

impl Capability {
    /// Parses a canonical capability name; any other string is rejected with
    /// `Error::InvalidCapName` carrying that string.
    pub fn from_name(s: &str) -> (r: Result<Capability, Error>)
        ensures
            r matches Ok(c) ==> named(s@) == Some(c),
            r is Err <==> named(s@) is None,
            r matches Err(e) ==> e matches Error::InvalidCapName(n) && n@ == s@,
    {
        let wanted: String = s.to_owned();
        let mut i: u8 = 0;
        while i < CAP_COUNT
            invariant
                wanted@ == s@,
                forall|c: Capability| c.spec_index() < i ==> c.spec_name() != s@,
            decreases CAP_COUNT - i,
        {
            let c = Capability::from_index(i).unwrap();
            let name = c.to_string();
            if name == wanted {
                proof {
                    assert forall|d: Capability| d.spec_name() == s@ implies d == c by {
                        lemma_name_injective(c, d);
                    }
                }
                return Ok(c);
            }
            proof {
                assert forall|d: Capability| d.spec_index() < i + 1 implies d.spec_name() != s@ by {
                    lemma_index_injective(c, d);
                }
            }
            i = i + 1;
        }
        proof {
            assert forall|d: Capability| d.spec_name() != s@ by {
                lemma_index_injective(d, d);
            }
        }
        Err(Error::InvalidCapName(wanted))
    }
}

/// The capability whose index is `i`.
pub open spec fn cap_at(i: int) -> Capability {
    choose|c: Capability| c.spec_index() == i
}

/// Every known capability, in index order.
pub open spec fn all_caps() -> Seq<Capability> {
    Seq::new(CAP_COUNT as nat, |i: int| cap_at(i))
}

/// `cap_at` undoes `spec_index`.
pub proof fn lemma_cap_at(c: Capability)
    ensures
        cap_at(c.spec_index() as int) == c,
{
    let d = cap_at(c.spec_index() as int);
    lemma_index_injective(c, d);
}

impl std::str::FromStr for Capability {
    type Err = Error;

    fn from_str(s: &str) -> Result<Capability, Error> {
        Capability::from_name(s)
    }
}

/// Returns every capability known to this library, each once, in index order.
pub fn all() -> (r: Vec<Capability>)
    ensures
        r@ == all_caps(),
        r@.len() == CAP_COUNT,
        forall|i: int| 0 <= i < r@.len() ==> r@[i].spec_index() == i,
        forall|c: Capability| r@.contains(c),
        r@.no_duplicates(),
{
    let mut r: Vec<Capability> = Vec::new();
    let mut i: u8 = 0;
    while i < CAP_COUNT
        invariant
            i <= CAP_COUNT,
            r@.len() == i,
            forall|j: int| 0 <= j < r@.len() ==> r@[j].spec_index() == j,
        decreases CAP_COUNT - i,
    {
        r.push(Capability::from_index(i).unwrap());
        i = i + 1;
    }
    proof {
        assert forall|c: Capability| r@.contains(c) by {
            lemma_index_injective(c, c);
            assert(r@[c.spec_index() as int] == c) by {
                lemma_index_injective(c, r@[c.spec_index() as int]);
            }
        }
        assert forall|a: int, b: int| 0 <= a < r@.len() && 0 <= b < r@.len() && a != b
            implies r@[a] != r@[b] by {
        }
        assert forall|i: int| 0 <= i < r@.len() implies r@[i] == cap_at(i) by {
            lemma_cap_at(r@[i]);
        }
        assert(r@ =~= all_caps());
    }
    r
}

/// Parsing a capability's canonical name yields that capability back.
pub proof fn lemma_name_round_trip(c: Capability)
    ensures
        named(c.spec_name()) == Some(c),
{
    assert forall|d: Capability| d.spec_name() == c.spec_name() implies d == c by {
        lemma_name_injective(c, d);
    }
}

} // verus!
