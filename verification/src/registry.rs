//! Presence registry: the in-memory table of peers on the local network.
//!
//! Peers are keyed by their network address (`ip`): a received heartbeat
//! replaces every field of the entry with the same address (last writer
//! wins), the liveness sweep evicts entries whose `last_seen` stamp is
//! older than the timeout, and a snapshot hands the current entries to the
//! presentation layer. The registry never holds an entry for the local
//! device's own address: heartbeats that echo back are dropped by address
//! comparison.

use vstd::prelude::*;

verus! {

/// A peer as learned from its discovery heartbeats. `last_seen` is a
/// receiver-side clock reading in seconds.
pub struct Device {
    pub name: String,
    pub ip: String,
    pub port: u16,
    pub status: String,
    pub last_seen: u64,
    pub mac: Option<String>,
}

impl Device {
    /// A field-for-field copy.
    pub fn duplicate(&self) -> (r: Device)
        ensures
            r == *self,
    {
        Device {
            name: self.name.clone(),
            ip: self.ip.clone(),
            port: self.port,
            status: self.status.clone(),
            last_seen: self.last_seen,
            mac: match &self.mac {
                Some(m) => Some(m.clone()),
                None => None,
            },
        }
    }
}

/// Whether a peer stamped `last_seen` is still live at `now` under the
/// given timeout: it is evicted once more than `timeout` seconds passed.
pub open spec fn spec_live(last_seen: u64, now: u64, timeout: u64) -> bool {
    now - timeout <= last_seen
}

/// The table of currently known peers, keyed by address.
pub struct Registry {
    /// The local device's own address; never present in `devices`.
    pub local_ip: String,
    pub devices: Vec<Device>,
}

impl Registry {
    /// Addresses are unique and the local address is absent.
    pub open spec fn wf(self) -> bool {
        &&& forall|i: int, j: int|
            0 <= i < j < self.devices@.len() ==> self.devices@[i].ip@ != self.devices@[j].ip@
        &&& forall|i: int| 0 <= i < self.devices@.len() ==> self.devices@[i].ip@ != self.local_ip@
    }

    /// Whether an entry with the given address is present.
    pub open spec fn spec_has(self, ip: Seq<char>) -> bool {
        exists|i: int| 0 <= i < self.devices@.len() && self.devices@[i].ip@ == ip
    }

    /// An empty registry for a device with the given local address.
    pub fn new(local_ip: String) -> (r: Registry)
        ensures
            r.wf(),
            r.devices@.len() == 0,
            r.local_ip == local_ip,
    {
        Registry { local_ip, devices: Vec::new() }
    }

    /// Records a heartbeat: replace-by-address upsert, every field taken
    /// from the newer heartbeat. A heartbeat carrying the local device's
    /// own address is dropped unchanged (self-filtering).
    pub fn upsert(&mut self, d: Device)
        requires
            old(self).wf(),
        ensures
            final(self).wf(),
            final(self).local_ip == old(self).local_ip,
            d.ip@ == old(self).local_ip@ ==> *final(self) == *old(self),
            d.ip@ != old(self).local_ip@ ==> {
                &&& final(self).devices@.contains(d)
                &&& forall|j: int|
                    0 <= j < final(self).devices@.len() && final(self).devices@[j].ip@ != d.ip@
                        ==> old(self).devices@.contains(#[trigger] final(self).devices@[j])
                &&& forall|j: int|
                    0 <= j < old(self).devices@.len() && old(self).devices@[j].ip@ != d.ip@
                        ==> final(self).devices@.contains(#[trigger] old(self).devices@[j])
            },
    {
        if d.ip == self.local_ip {
            return ;
        }
        let n: usize = self.devices.len();
        let mut i: usize = 0;
        while i < n
            invariant
                old(self).wf(),
                n == self.devices@.len(),
                i <= n,
                *self == *old(self),
                d.ip@ != self.local_ip@,
                forall|k: int| 0 <= k < i ==> self.devices@[k].ip@ != d.ip@,
            decreases n - i,
        {
            if self.devices[i].ip == d.ip {
                self.devices.set(i, d);
                proof {
                    assert(final(self).devices@[i as int] == d);
                    assert(final(self).devices@.contains(d));
                    assert forall|j: int|
                        0 <= j < final(self).devices@.len() && final(self).devices@[j].ip@
                            != d.ip@ implies old(self).devices@.contains(
                        #[trigger] final(self).devices@[j],
                    ) by {
                        assert(final(self).devices@[j] == old(self).devices@[j]);
                    }
                    assert forall|j: int|
                        0 <= j < old(self).devices@.len() && old(self).devices@[j].ip@
                            != d.ip@ implies final(self).devices@.contains(
                        #[trigger] old(self).devices@[j],
                    ) by {
                        assert(final(self).devices@[j] == old(self).devices@[j]);
                    }
                }
                return ;
            }
            i = i + 1;
        }
        self.devices.push(d);
        proof {
            assert(final(self).devices@.last() == d);
            assert(final(self).devices@.contains(d));
            assert forall|j: int|
                0 <= j < final(self).devices@.len() && final(self).devices@[j].ip@
                    != d.ip@ implies old(self).devices@.contains(
                #[trigger] final(self).devices@[j],
            ) by {
                assert(final(self).devices@[j] == old(self).devices@[j]);
            }
            assert forall|j: int|
                0 <= j < old(self).devices@.len() && old(self).devices@[j].ip@
                    != d.ip@ implies final(self).devices@.contains(
                #[trigger] old(self).devices@[j],
            ) by {
                assert(final(self).devices@[j] == old(self).devices@[j]);
            }
        }
    }

    /// Records a decoded heartbeat received from `src_ip` at time `now`:
    /// the sender's address and the receiver's clock override whatever the
    /// payload claimed, then the entry is upserted (or dropped if it is the
    /// local device's own echo).
    pub fn observe(&mut self, parsed: Device, src_ip: String, now: u64)
        requires
            old(self).wf(),
        ensures
            final(self).wf(),
            final(self).local_ip == old(self).local_ip,
            src_ip@ == old(self).local_ip@ ==> *final(self) == *old(self),
            src_ip@ != old(self).local_ip@ ==> final(self).devices@.contains(
                Device {
                    ip: src_ip,
                    last_seen: now,
                    name: parsed.name,
                    port: parsed.port,
                    status: parsed.status,
                    mac: parsed.mac,
                },
            ),
    {
        let d = Device {
            name: parsed.name,
            ip: src_ip,
            port: parsed.port,
            status: parsed.status,
            last_seen: now,
            mac: parsed.mac,
        };
        self.upsert(d);
    }

    /// Liveness sweep: evicts every entry whose heartbeat is older than
    /// `timeout` seconds; fresh entries survive untouched. A peer from
    /// which no heartbeat arrived for more than `timeout` is therefore
    /// absent from every snapshot taken after the next sweep.
    pub fn sweep(&mut self, now: u64, timeout: u64)
        requires
            old(self).wf(),
        ensures
            final(self).wf(),
            final(self).local_ip == old(self).local_ip,
            forall|j: int|
                0 <= j < final(self).devices@.len() ==> spec_live(
                    (#[trigger] final(self).devices@[j]).last_seen,
                    now,
                    timeout,
                ) && old(self).devices@.contains(final(self).devices@[j]),
            forall|j: int|
                0 <= j < old(self).devices@.len() && spec_live(
                    (#[trigger] old(self).devices@[j]).last_seen,
                    now,
                    timeout,
                ) ==> final(self).devices@.contains(old(self).devices@[j]),
    {
        let n: usize = self.devices.len();
        let mut kept: Vec<Device> = Vec::new();
        let mut i: usize = 0;
        while i < n
            invariant
                old(self).wf(),
                *self == *old(self),
                n == self.devices@.len(),
                i <= n,
                forall|j: int|
                    0 <= j < kept@.len() ==> spec_live((#[trigger] kept@[j]).last_seen, now, timeout)
                        && exists|w: int| 0 <= w < i && self.devices@[w] == kept@[j],
                forall|j: int|
                    0 <= j < i && spec_live((#[trigger] self.devices@[j]).last_seen, now, timeout)
                        ==> kept@.contains(self.devices@[j]),
                forall|a: int, b: int|
                    0 <= a < b < kept@.len() ==> kept@[a].ip@ != kept@[b].ip@,
                forall|a: int| 0 <= a < kept@.len() ==> kept@[a].ip@ != self.local_ip@,
            decreases n - i,
        {
            let alive = now.saturating_sub(timeout) <= self.devices[i].last_seen;
            if alive {
                let ghost prev = kept@;
                kept.push(self.devices[i].duplicate());
                proof {
                    assert(kept@[prev.len() as int] == self.devices@[i as int]);
                    assert(kept@.contains(self.devices@[i as int]));
                    assert forall|a: int, b: int| 0 <= a < b < kept@.len() implies kept@[a].ip@
                        != kept@[b].ip@ by {
                        if b == prev.len() {
                            let da = kept@[a];
                            let wa = choose|w: int| 0 <= w < i && self.devices@[w] == da;
                            assert(self.devices@[wa].ip@ != self.devices@[i as int].ip@);
                        }
                    }
                    assert forall|j: int|
                        0 <= j < kept@.len() implies spec_live(
                        (#[trigger] kept@[j]).last_seen,
                        now,
                        timeout,
                    ) && exists|w: int| 0 <= w < i + 1 && self.devices@[w] == kept@[j] by {
                        if j < prev.len() {
                            assert(kept@[j] == prev[j]);
                        } else {
                            assert(kept@[j] == self.devices@[i as int]);
                        }
                    }
                    assert forall|j: int|
                        0 <= j < i + 1 && spec_live(
                            (#[trigger] self.devices@[j]).last_seen,
                            now,
                            timeout,
                        ) implies kept@.contains(self.devices@[j]) by {
                        if j < i {
                            let w = choose|w: int| 0 <= w < prev.len() && prev[w]
                                == self.devices@[j];
                            assert(kept@[w] == self.devices@[j]);
                        }
                    }
                }
            }
            i = i + 1;
        }
        self.devices = kept;
    }

    /// Point-in-time snapshot of the known peers, for presentation.
    pub fn get_active_devices(&self) -> (r: Vec<Device>)
        ensures
            r@ == self.devices@,
    {
        let mut r: Vec<Device> = Vec::new();
        let n: usize = self.devices.len();
        let mut i: usize = 0;
        while i < n
            invariant
                n == self.devices@.len(),
                i <= n,
                r@ == self.devices@.subrange(0, i as int),
            decreases n - i,
        {
            r.push(self.devices[i].duplicate());
            proof {
                assert(r@ =~= self.devices@.subrange(0, i + 1));
            }
            i = i + 1;
        }
        proof {
            assert(r@ =~= self.devices@);
        }
        r
    }
}

/// Liveness eviction: whenever a sweep at time `now` has run (`post`
/// holds only entries of `pre` that were still live, as `sweep`
/// guarantees), a peer from which no heartbeat arrived for more than the
/// timeout — so every entry it may have in `pre` is stale — is absent
/// from every snapshot of `post`.
pub proof fn lemma_stale_peer_evicted(
    pre: Registry,
    post: Registry,
    ip: Seq<char>,
    now: u64,
    timeout: u64,
)
    requires
        forall|j: int|
            0 <= j < post.devices@.len() ==> spec_live(
                (#[trigger] post.devices@[j]).last_seen,
                now,
                timeout,
            ) && pre.devices@.contains(post.devices@[j]),
        forall|j: int|
            0 <= j < pre.devices@.len() && (#[trigger] pre.devices@[j]).ip@ == ip ==> !spec_live(
                pre.devices@[j].last_seen,
                now,
                timeout,
            ),
    ensures
        !post.spec_has(ip),
{
    if post.spec_has(ip) {
        let j = choose|j: int| 0 <= j < post.devices@.len() && post.devices@[j].ip@ == ip;
        let d = post.devices@[j];
        let w = choose|w: int| 0 <= w < pre.devices@.len() && pre.devices@[w] == d;
        assert(!spec_live(pre.devices@[w].last_seen, now, timeout));
    }
}

/// Self-filtering, stated on its own: a well-formed registry never holds
/// an entry whose address is the local device's own, whatever sequence of
/// heartbeats was observed.
pub proof fn lemma_registry_never_holds_self(r: Registry)
    requires
        r.wf(),
    ensures
        !r.spec_has(r.local_ip@),
{
}

/// The advertised device name for a host name: an empty or unknown host
/// name becomes a generic label; a name that already tells its platform
/// (case folded) is kept; otherwise the operating system's label is
/// appended.
pub open spec fn spec_normalize_device_name(h: Seq<char>, os: Seq<char>) -> Seq<char> {
    if h.len() == 0 || h == "Unknown"@ {
        "Dispositivo"@
    } else {
        let l = crate::strutil::spec_lower(h);
        if crate::strutil::spec_contains(l, "iphone"@) || crate::strutil::spec_contains(
            l,
            "ipad"@,
        ) || crate::strutil::spec_contains(l, "ios"@) || crate::strutil::spec_contains(
            l,
            "android"@,
        ) || crate::strutil::spec_contains(l, "mac"@) || crate::strutil::spec_contains(
            l,
            "macbook"@,
        ) || crate::strutil::spec_contains(l, "darwin"@) || crate::strutil::spec_contains(
            l,
            "win"@,
        ) || crate::strutil::spec_contains(l, "windows"@) || crate::strutil::spec_contains(
            l,
            "linux"@,
        ) {
            h
        } else if os == "macos"@ {
            h + " (macOS)"@
        } else if os == "windows"@ {
            h + " (Windows)"@
        } else if os == "linux"@ {
            h + " (Linux)"@
        } else {
            h
        }
    }
}

/// Normalises a host name into the advertised device name, for the
/// operating system the process runs on (named as the compiler does).
pub fn normalize_device_name(hostname: &str, os: &str) -> (r: String)
    ensures
        r@ == spec_normalize_device_name(hostname@, os@),
{
    let hc = crate::strutil::str_to_chars(hostname);
    if hc.len() == 0 || crate::strutil::str_eq(hostname, "Unknown") {
        return "Dispositivo".to_owned();
    }
    let l = crate::strutil::lower_chars(hc.as_slice());
    let p1 = crate::strutil::str_to_chars("iphone");
    let p2 = crate::strutil::str_to_chars("ipad");
    let p3 = crate::strutil::str_to_chars("ios");
    let p4 = crate::strutil::str_to_chars("android");
    let p5 = crate::strutil::str_to_chars("mac");
    let p6 = crate::strutil::str_to_chars("macbook");
    let p7 = crate::strutil::str_to_chars("darwin");
    let p8 = crate::strutil::str_to_chars("win");
    let p9 = crate::strutil::str_to_chars("windows");
    let p10 = crate::strutil::str_to_chars("linux");
    let platformed = crate::strutil::chars_contain(l.as_slice(), p1.as_slice())
        || crate::strutil::chars_contain(l.as_slice(), p2.as_slice())
        || crate::strutil::chars_contain(l.as_slice(), p3.as_slice())
        || crate::strutil::chars_contain(l.as_slice(), p4.as_slice())
        || crate::strutil::chars_contain(l.as_slice(), p5.as_slice())
        || crate::strutil::chars_contain(l.as_slice(), p6.as_slice())
        || crate::strutil::chars_contain(l.as_slice(), p7.as_slice())
        || crate::strutil::chars_contain(l.as_slice(), p8.as_slice())
        || crate::strutil::chars_contain(l.as_slice(), p9.as_slice())
        || crate::strutil::chars_contain(l.as_slice(), p10.as_slice());
    if platformed {
        return hostname.to_owned();
    }
    let suffix: Option<&'static str> = if crate::strutil::str_eq(os, "macos") {
        Some(" (macOS)")
    } else if crate::strutil::str_eq(os, "windows") {
        Some(" (Windows)")
    } else if crate::strutil::str_eq(os, "linux") {
        Some(" (Linux)")
    } else {
        None
    };
    match suffix {
        None => hostname.to_owned(),
        Some(sfx) => {
            let mut out = hc;
            let mut sc = crate::strutil::str_to_chars(sfx);
            out.append(&mut sc);
            crate::strutil::chars_to_string(&out)
        },
    }
}

} // verus!
