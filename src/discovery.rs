//! Discovery bookkeeping: which input nodes to open, and the set of paths
//! that have a running monitor.
use vstd::prelude::*;

verus! {

/// Whether `text` holds `pat` at position `at`.
pub open spec fn occurs_at(text: Seq<u8>, pat: Seq<u8>, at: int) -> bool {
    0 <= at && at + pat.len() <= text.len() && text.subrange(at, at + pat.len()) == pat
}

/// Whether `text` holds `pat` anywhere.
pub open spec fn occurs_in(text: Seq<u8>, pat: Seq<u8>) -> bool {
    exists|at: int| occurs_at(text, pat, at)
}

/// The text that names event nodes among the input devices.
pub open spec fn event_word() -> Seq<u8> {
    seq![0x65u8, 0x76u8, 0x65u8, 0x6eu8, 0x74u8]
}

fn bytes_equal(a: &Vec<u8>, b: &Vec<u8>) -> (r: bool)
    ensures
        r == (a@ == b@),
{
    if a.len() != b.len() {
        return false;
    }
    let mut i: usize = 0;
    while i < a.len()
        invariant
            0 <= i <= a@.len(),
            a@.len() == b@.len(),
            forall|j: int| 0 <= j < i ==> a@[j] == b@[j],
        decreases a@.len() - i,
    {
        if a[i] != b[i] {
            return false;
        }
        i = i + 1;
    }
    assert(a@ =~= b@);
    true
}

fn occurs_at_exec(text: &Vec<u8>, pat: &Vec<u8>, at: usize) -> (r: bool)
    requires
        at + pat@.len() <= text@.len(),
    ensures
        r == occurs_at(text@, pat@, at as int),
{
    let n = text.len();
    let mut j: usize = 0;
    while j < pat.len()
        invariant
            n == text@.len(),
            0 <= j <= pat@.len(),
            at + pat@.len() <= text@.len(),
            forall|k: int| 0 <= k < j ==> text@[at + k] == pat@[k],
        decreases pat@.len() - j,
    {
        assert(at + j < text@.len());
        if text[at + j] != pat[j] {
            assert(text@.subrange(at as int, at + pat@.len())[j as int] != pat@[j as int]);
            return false;
        }
        j = j + 1;
    }
    assert(text@.subrange(at as int, at + pat@.len()) =~= pat@);
    true
}

/// Whether a device path names an event node (it holds the word `event`);
/// other nodes are never opened.
pub fn is_event_node(path: &Vec<u8>) -> (r: bool)
    ensures
        r == occurs_in(path@, event_word()),
{
    let pat: Vec<u8> = vec![0x65u8, 0x76u8, 0x65u8, 0x6eu8, 0x74u8];
    assert(pat@ == event_word());
    if path.len() < pat.len() {
        assert(!occurs_in(path@, event_word()));
        return false;
    }
    let n = path.len();
    let last = n - pat.len();
    let mut at: usize = 0;
    while at <= last
        invariant
            n == path@.len(),
            pat@.len() == 5,
            pat@ == event_word(),
            last + pat@.len() == path@.len(),
            at <= last + 1,
            forall|k: int| 0 <= k < at ==> !occurs_at(path@, pat@, k),
        decreases last + 1 - at,
    {
        if occurs_at_exec(path, &pat, at) {
            return true;
        }
        at = at + 1;
    }
    assert forall|k: int| !occurs_at(path@, event_word(), k) by {
        if 0 <= k <= last {
            assert(!occurs_at(path@, pat@, k));
        }
    }
    false
}

/// The paths of devices that have a running monitor, each at most once.
pub struct DeviceRegistry {
    pub active: Vec<Vec<u8>>,
}

impl DeviceRegistry {
    /// The active paths.
    pub open spec fn paths(&self) -> Seq<Seq<u8>> {
        self.active@.map_values(|p: Vec<u8>| p@)
    }

    /// No path is active twice.
    pub open spec fn wf(&self) -> bool {
        self.paths().no_duplicates()
    }

    pub fn new() -> (r: Self)
        ensures
            r.wf(),
            r.paths().len() == 0,
    {
        DeviceRegistry { active: Vec::new() }
    }

    fn position(&self, path: &Vec<u8>) -> (r: Option<usize>)
        ensures
            match r {
                Some(i) => i < self.paths().len() && self.paths()[i as int] == path@,
                None => !self.paths().contains(path@),
            },
    {
        let mut i: usize = 0;
        while i < self.active.len()
            invariant
                0 <= i <= self.active@.len(),
                forall|k: int| 0 <= k < i ==> self.paths()[k] != path@,
            decreases self.active@.len() - i,
        {
            if bytes_equal(&self.active[i], path) {
                return Some(i);
            }
            i = i + 1;
        }
        None
    }

    /// Whether `path` has a running monitor.
    pub fn is_active(&self, path: &Vec<u8>) -> (r: bool)
        ensures
            r == self.paths().contains(path@),
    {
        self.position(path).is_some()
    }

    /// Claims `path` for a new monitor; fails, changing nothing, when it
    /// already has one.
    pub fn begin_monitoring(&mut self, path: Vec<u8>) -> (claimed: bool)
        requires
            old(self).wf(),
        ensures
            final(self).wf(),
            claimed == !old(self).paths().contains(path@),
            claimed ==> final(self).paths() == old(self).paths().push(path@),
            !claimed ==> final(self).paths() == old(self).paths(),
    {
        if self.position(&path).is_some() {
            return false;
        }
        let ghost before = self.paths();
        let ghost p = path@;
        self.active.push(path);
        proof {
            assert(self.paths() =~= before.push(p));
        }
        true
    }

    /// Releases `path` when its monitor has exited, so that the device can be
    /// found again.
    pub fn end_monitoring(&mut self, path: &Vec<u8>)
        requires
            old(self).wf(),
        ensures
            final(self).wf(),
            !final(self).paths().contains(path@),
            forall|q: Seq<u8>|
                q != path@ ==> (final(self).paths().contains(q) <==> old(self).paths().contains(
                    q,
                )),
    {
        match self.position(path) {
            Some(i) => {
                let ghost before = self.paths();
                self.active.remove(i);
                proof {
                    assert(self.paths() =~= before.remove(i as int));
                    assert forall|q: Seq<u8>|
                        q != path@ implies (self.paths().contains(q) <==> before.contains(q)) by {
                        if before.contains(q) {
                            let k = choose|k: int| 0 <= k < before.len() && before[k] == q;
                            if k < i {
                                assert(self.paths()[k] == q);
                            } else {
                                assert(self.paths()[k - 1] == q);
                            }
                        }
                    }
                    assert(!self.paths().contains(path@)) by {
                        if self.paths().contains(path@) {
                            let k = choose|k: int|
                                0 <= k < self.paths().len() && self.paths()[k] == path@;
                            if k < i {
                                assert(before[k] == before[i as int]);
                            } else {
                                assert(before[k + 1] == before[i as int]);
                            }
                        }
                    }
                }
            },
            None => {},
        }
    }
}

} // verus!
