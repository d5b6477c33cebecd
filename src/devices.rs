use vstd::prelude::*;

verus! {

/// A device seen on the bus.
#[derive(Debug)]
pub struct DeviceInfo {
    /// Identity of the device: its serial number.
    pub serial: u64,
    /// Board identifier, as the flashing tool names it.
    pub tag: String,
    /// Bus location.
    pub location: String,
    /// Whether the device is ready to take an image.
    pub online: bool,
}

impl Clone for DeviceInfo {
    fn clone(&self) -> (r: Self)
        ensures
            r == *self,
    {
        DeviceInfo {
            serial: self.serial,
            tag: self.tag.clone(),
            location: self.location.clone(),
            online: self.online,
        }
    }
}

/// A change reported by the bus watcher.
#[derive(Debug)]
pub enum DeviceChange {
    Added(DeviceInfo),
    Removed(u64),
}

/// Some entry of `s` has identity `serial`.
pub open spec fn has_serial(s: Seq<DeviceInfo>, serial: u64) -> bool {
    exists|i: int| 0 <= i < s.len() && #[trigger] s[i].serial == serial
}

/// No two entries of `s` share an identity.
pub open spec fn unique_serials(s: Seq<DeviceInfo>) -> bool {
    forall|i: int, j: int| 0 <= i < j < s.len() ==> #[trigger] s[i].serial != #[trigger] s[j].serial
}

/// `s` with every entry whose identity appeared earlier left out.
pub open spec fn dedup(s: Seq<DeviceInfo>) -> Seq<DeviceInfo>
    decreases s.len(),
{
    if s.len() == 0 {
        s
    } else {
        let d = dedup(s.drop_last());
        if has_serial(d, s.last().serial) {
            d
        } else {
            d.push(s.last())
        }
    }
}

/// `s` with every entry of identity `serial` left out.
pub open spec fn without(s: Seq<DeviceInfo>, serial: u64) -> Seq<DeviceInfo>
    decreases s.len(),
{
    if s.len() == 0 {
        s
    } else {
        let w = without(s.drop_last(), serial);
        if s.last().serial == serial {
            w
        } else {
            w.push(s.last())
        }
    }
}

pub proof fn lemma_push_unique(s: Seq<DeviceInfo>, d: DeviceInfo)
    requires
        unique_serials(s),
        !has_serial(s, d.serial),
    ensures
        unique_serials(s.push(d)),
{
    assert forall|i: int, j: int| 0 <= i < j < s.push(d).len() implies #[trigger] s.push(d)[i].serial
        != #[trigger] s.push(d)[j].serial by {
        if j == s.len() {
            assert(s[i].serial == s.push(d)[i].serial);
        }
    }
}

pub proof fn lemma_dedup_unique(s: Seq<DeviceInfo>)
    ensures
        unique_serials(dedup(s)),
    decreases s.len(),
{
    if s.len() > 0 {
        lemma_dedup_unique(s.drop_last());
        let d = dedup(s.drop_last());
        if !has_serial(d, s.last().serial) {
            lemma_push_unique(d, s.last());
        }
    }
}

/// Leaving out an identity keeps the others, in order, and keeps them unique.
pub proof fn lemma_without_props(s: Seq<DeviceInfo>, serial: u64)
    requires
        unique_serials(s),
    ensures
        unique_serials(without(s, serial)),
        !has_serial(without(s, serial), serial),
        forall|x: u64| x != serial ==> (has_serial(without(s, serial), x) == has_serial(s, x)),
        without(s, serial).len() <= s.len(),
        has_serial(s, serial) ==> without(s, serial).len() < s.len(),
    decreases s.len(),
{
    if s.len() > 0 {
        let t = s.drop_last();
        assert(unique_serials(t)) by {
            assert forall|i: int, j: int| 0 <= i < j < t.len() implies #[trigger] t[i].serial != #[trigger] t[j].serial by {
                assert(t[i] == s[i] && t[j] == s[j]);
            }
        }
        lemma_without_props(t, serial);
        let w = without(t, serial);
        assert forall|x: u64| x != serial implies (has_serial(without(s, serial), x) == has_serial(s, x)) by {
            if has_serial(s, x) {
                let i = choose|i: int| 0 <= i < s.len() && #[trigger] s[i].serial == x;
                if i < t.len() {
                    assert(t[i].serial == x);
                    assert(has_serial(t, x));
                    assert(has_serial(without(t, serial), x) == has_serial(t, x));
                    assert(has_serial(w, x));
                    let k = choose|k: int| 0 <= k < w.len() && #[trigger] w[k].serial == x;
                    if s.last().serial != serial {
                        assert(without(s, serial) == w.push(s.last()));
                        assert(w.push(s.last())[k].serial == x);
                    } else {
                        assert(without(s, serial) == w);
                    }
                } else {
                    assert(without(s, serial) == w.push(s.last()));
                    assert(w.push(s.last())[w.len() as int].serial == x);
                }
            }
            if has_serial(without(s, serial), x) {
                if s.last().serial != serial {
                    assert(without(s, serial) == w.push(s.last()));
                    let i = choose|i: int| 0 <= i < w.push(s.last()).len() && #[trigger] w.push(s.last())[i].serial == x;
                    if i < w.len() {
                        assert(w[i].serial == x);
                        assert(has_serial(w, x));
                        assert(has_serial(t, x));
                        let k = choose|k: int| 0 <= k < t.len() && #[trigger] t[k].serial == x;
                        assert(s[k].serial == x);
                    } else {
                        assert(s[s.len() - 1].serial == x);
                    }
                } else {
                    assert(without(s, serial) == w);
                    assert(has_serial(t, x));
                    let k = choose|k: int| 0 <= k < t.len() && #[trigger] t[k].serial == x;
                    assert(s[k].serial == x);
                }
            }
        }
        if s.last().serial != serial {
            assert(!has_serial(w, s.last().serial)) by {
                if has_serial(t, s.last().serial) {
                    let k = choose|k: int| 0 <= k < t.len() && #[trigger] t[k].serial == s.last().serial;
                    assert(s[k].serial == s[s.len() - 1].serial);
                }
            }
            lemma_push_unique(w, s.last());
            assert(!has_serial(w.push(s.last()), serial)) by {
                if has_serial(w.push(s.last()), serial) {
                    let i = choose|i: int| 0 <= i < w.push(s.last()).len() && #[trigger] w.push(s.last())[i].serial == serial;
                    assert(w[i].serial == serial);
                }
            }
            if has_serial(s, serial) {
                let i = choose|i: int| 0 <= i < s.len() && #[trigger] s[i].serial == serial;
                assert(t[i].serial == serial);
            }
        } else {
            assert(has_serial(s, serial)) by {
                assert(s[s.len() - 1].serial == serial);
            }
        }
    }
}

/// Index of the entry of identity `serial`, if any.
pub fn find_serial(devices: &Vec<DeviceInfo>, serial: u64) -> (r: Option<usize>)
    ensures
        r is None <==> !has_serial(devices@, serial),
        r is Some ==> r->Some_0 < devices@.len() && devices@[r->Some_0 as int].serial == serial,
{
    let mut i: usize = 0;
    while i < devices.len()
        invariant
            i <= devices@.len(),
            forall|k: int| 0 <= k < i ==> #[trigger] devices@[k].serial != serial,
        decreases devices@.len() - i,
    {
        if devices[i].serial == serial {
            return Some(i);
        }
        i = i + 1;
    }
    None
}

/// A copy of `devices`.
pub fn copy_devices(devices: &Vec<DeviceInfo>) -> (r: Vec<DeviceInfo>)
    ensures
        r@ == devices@,
{
    let mut out: Vec<DeviceInfo> = Vec::new();
    let mut i: usize = 0;
    while i < devices.len()
        invariant
            i <= devices@.len(),
            out@ == devices@.subrange(0, i as int),
        decreases devices@.len() - i,
    {
        out.push(devices[i].clone());
        assert(devices@.subrange(0, i + 1) == devices@.subrange(0, i as int).push(devices@[i as int]));
        i = i + 1;
    }
    assert(devices@.subrange(0, devices@.len() as int) == devices@);
    out
}

/// The listed devices, keeping the first entry of each identity.
pub fn dedup_devices(listed: &Vec<DeviceInfo>) -> (r: Vec<DeviceInfo>)
    ensures
        r@ == dedup(listed@),
        unique_serials(r@),
{
    let mut out: Vec<DeviceInfo> = Vec::new();
    let mut i: usize = 0;
    while i < listed.len()
        invariant
            i <= listed@.len(),
            out@ == dedup(listed@.subrange(0, i as int)),
        decreases listed@.len() - i,
    {
        let ghost pre = listed@.subrange(0, i + 1);
        assert(pre.drop_last() == listed@.subrange(0, i as int));
        assert(pre.last() == listed@[i as int]);
        if find_serial(&out, listed[i].serial).is_none() {
            out.push(listed[i].clone());
        }
        i = i + 1;
    }
    assert(listed@.subrange(0, listed@.len() as int) == listed@);
    proof {
        lemma_dedup_unique(listed@);
    }
    out
}

/// `devices` with the entries of identity `serial` left out.
pub fn remove_serial(devices: &Vec<DeviceInfo>, serial: u64) -> (r: Vec<DeviceInfo>)
    ensures
        r@ == without(devices@, serial),
{
    let mut out: Vec<DeviceInfo> = Vec::new();
    let mut i: usize = 0;
    while i < devices.len()
        invariant
            i <= devices@.len(),
            out@ == without(devices@.subrange(0, i as int), serial),
        decreases devices@.len() - i,
    {
        let ghost pre = devices@.subrange(0, i + 1);
        assert(pre.drop_last() == devices@.subrange(0, i as int));
        assert(pre.last() == devices@[i as int]);
        if devices[i].serial != serial {
            out.push(devices[i].clone());
        }
        i = i + 1;
    }
    assert(devices@.subrange(0, devices@.len() as int) == devices@);
    out
}

/// Listing two devices of different identities and then removing the first
/// leaves exactly the second; removing the first again finds nothing, so the
/// removal is reported once.
pub proof fn lemma_list_then_remove(a: DeviceInfo, b: DeviceInfo)
    requires
        a.serial != b.serial,
    ensures
        dedup(seq![a, b]) == seq![a, b],
        has_serial(dedup(seq![a, b]), a.serial),
        without(dedup(seq![a, b]), a.serial) == seq![b],
        !has_serial(without(dedup(seq![a, b]), a.serial), a.serial),
{
    let s = seq![a, b];
    assert(s.drop_last() == seq![a]);
    assert(seq![a].drop_last() == Seq::<DeviceInfo>::empty());
    assert(dedup(Seq::<DeviceInfo>::empty()) == Seq::<DeviceInfo>::empty());
    assert(!has_serial(Seq::<DeviceInfo>::empty(), a.serial));
    assert(Seq::<DeviceInfo>::empty().push(a) == seq![a]);
    assert(dedup(seq![a]) == seq![a]);
    assert(!has_serial(seq![a], b.serial)) by {
        if has_serial(seq![a], b.serial) {
            let i = choose|i: int| 0 <= i < seq![a].len() && #[trigger] seq![a][i].serial == b.serial;
            assert(i == 0);
        }
    }
    assert(seq![a].push(b) == s);
    assert(dedup(s) == s);
    assert(s[0].serial == a.serial);
    assert(without(Seq::<DeviceInfo>::empty(), a.serial) == Seq::<DeviceInfo>::empty());
    assert(without(seq![a], a.serial) == Seq::<DeviceInfo>::empty());
    assert(Seq::<DeviceInfo>::empty().push(b) == seq![b]);
    assert(without(s, a.serial) == seq![b]);
    assert(!has_serial(seq![b], a.serial)) by {
        if has_serial(seq![b], a.serial) {
            let i = choose|i: int| 0 <= i < seq![b].len() && #[trigger] seq![b][i].serial == a.serial;
            assert(i == 0);
        }
    }
}

} // verus!
