//! Which operating-system processes belong to which segment, for resource
//! sampling.

use vstd::prelude::*;

verus! {

struct SegmentPids {
    segment_id: String,
    pids: Vec<u32>,
}

/// Segment id to the process ids tracked for it, in the order they were tracked.
pub struct SegmentProcesses {
    entries: Vec<SegmentPids>,
    model: Ghost<Map<Seq<char>, Seq<u32>>>,
}

impl View for SegmentProcesses {
    type V = Map<Seq<char>, Seq<u32>>;

    closed spec fn view(&self) -> Map<Seq<char>, Seq<u32>> {
        self.model@
    }
}

/// The table after tracking `pid` for `id`: appended to the ids already tracked.
pub open spec fn with_process(m: Map<Seq<char>, Seq<u32>>, id: Seq<char>, pid: u32) -> Map<
    Seq<char>,
    Seq<u32>,
> {
    if m.contains_key(id) {
        m.insert(id, m[id].push(pid))
    } else {
        m.insert(id, seq![pid])
    }
}

impl SegmentProcesses {
    pub closed spec fn wf(&self) -> bool {
        Self::agrees(self.entries@, self.model@)
    }

    spec fn agrees(s: Seq<SegmentPids>, m: Map<Seq<char>, Seq<u32>>) -> bool {
        &&& forall|i: int, j: int|
            0 <= i < s.len() && 0 <= j < s.len() && i != j ==> #[trigger] s[i].segment_id@
                != #[trigger] s[j].segment_id@
        &&& forall|i: int|
            0 <= i < s.len() ==> m.contains_key(#[trigger] s[i].segment_id@) && m[s[i].segment_id@]
                == s[i].pids@
        &&& forall|k: Seq<char>|
            #[trigger] m.contains_key(k) ==> exists|i: int|
                0 <= i < s.len() && #[trigger] s[i].segment_id@ == k
    }

    pub fn new() -> (r: Self)
        ensures
            r.wf(),
            r@ == Map::<Seq<char>, Seq<u32>>::empty(),
    {
        SegmentProcesses { entries: Vec::new(), model: Ghost(Map::empty()) }
    }

    fn find(&self, id: &String) -> (r: Option<usize>)
        requires
            self.wf(),
        ensures
            match r {
                Some(i) => i < self.entries@.len() && self.entries@[i as int].segment_id@ == id@,
                None => !self@.contains_key(id@),
            },
    {
        let mut i: usize = 0;
        while i < self.entries.len()
            invariant
                self.wf(),
                i <= self.entries@.len(),
                forall|j: int| 0 <= j < i ==> #[trigger] self.entries@[j].segment_id@ != id@,
            decreases self.entries@.len() - i,
        {
            if self.entries[i].segment_id == *id {
                return Some(i);
            }
            i += 1;
        }
        None
    }

    /// Tracks `pid` as a process of `segment_id`.
    pub fn track(&mut self, segment_id: String, pid: u32)
        requires
            old(self).wf(),
        ensures
            final(self).wf(),
            final(self)@ == with_process(old(self)@, segment_id@, pid),
    {
        let ghost s0 = self.entries@;
        match self.find(&segment_id) {
            Some(i) => {
                self.entries[i].pids.push(pid);
                let ghost e = self.entries@[i as int];
                self.model = Ghost(self.model@.insert(segment_id@, e.pids@));
                proof {
                    let s1 = self.entries@;
                    assert(s1 == s0.update(i as int, e));
                    assert forall|k: Seq<char>| #[trigger] self.model@.contains_key(k) implies exists|
                        j: int,
                    | 0 <= j < s1.len() && #[trigger] s1[j].segment_id@ == k by {
                        if k == segment_id@ {
                            assert(s1[i as int].segment_id@ == k);
                        } else {
                            let j = choose|j: int|
                                0 <= j < s0.len() && #[trigger] s0[j].segment_id@ == k;
                            assert(s1[j].segment_id@ == k);
                        }
                    }
                }
            },
            None => {
                let ghost k = segment_id@;
                let mut pids: Vec<u32> = Vec::new();
                pids.push(pid);
                self.entries.push(SegmentPids { segment_id, pids });
                self.model = Ghost(self.model@.insert(k, seq![pid]));
                proof {
                    let s1 = self.entries@;
                    let n = s1.len() - 1;
                    assert(s1[n].pids@ =~= seq![pid]);
                    assert forall|kk: Seq<char>| #[trigger] self.model@.contains_key(kk) implies exists|
                        j: int,
                    | 0 <= j < s1.len() && #[trigger] s1[j].segment_id@ == kk by {
                        if kk == k {
                            assert(s1[n].segment_id@ == kk);
                        } else {
                            let j = choose|j: int|
                                0 <= j < s0.len() && #[trigger] s0[j].segment_id@ == kk;
                            assert(s1[j].segment_id@ == kk);
                        }
                    }
                }
            },
        }
    }

    /// Forgets every process of `segment_id`.
    pub fn untrack(&mut self, segment_id: &String)
        requires
            old(self).wf(),
        ensures
            final(self).wf(),
            final(self)@ == old(self)@.remove(segment_id@),
    {
        match self.find(segment_id) {
            Some(i) => {
                let ghost s0 = self.entries@;
                self.entries.remove(i);
                self.model = Ghost(self.model@.remove(segment_id@));
                proof {
                    let s1 = self.entries@;
                    let m1 = self.model@;
                    assert forall|a: int, b: int|
                        0 <= a < s1.len() && 0 <= b < s1.len() && a != b implies #[trigger] s1[a].segment_id@
                        != #[trigger] s1[b].segment_id@ by {
                        let a0 = if a < i { a } else { a + 1 };
                        let b0 = if b < i { b } else { b + 1 };
                        assert(s1[a] == s0[a0] && s1[b] == s0[b0]);
                    }
                    assert forall|a: int| 0 <= a < s1.len() implies m1.contains_key(
                        #[trigger] s1[a].segment_id@,
                    ) && m1[s1[a].segment_id@] == s1[a].pids@ by {
                        let a0 = if a < i { a } else { a + 1 };
                        assert(s1[a] == s0[a0]);
                        assert(s0[a0].segment_id@ != s0[i as int].segment_id@);
                    }
                    assert forall|k: Seq<char>| #[trigger] m1.contains_key(k) implies exists|j: int|
                        0 <= j < s1.len() && #[trigger] s1[j].segment_id@ == k by {
                        let j = choose|j: int| 0 <= j < s0.len() && #[trigger] s0[j].segment_id@ == k;
                        if j < i {
                            assert(s1[j].segment_id@ == k);
                        } else {
                            assert(j != i);
                            assert(s1[j - 1].segment_id@ == k);
                        }
                    }
                }
            },
            None => {
                proof {
                    assert(self@.remove(segment_id@) =~= self@);
                }
            },
        }
    }

    /// The processes tracked for `segment_id`, if any were.
    pub fn pids_of(&self, segment_id: &String) -> (r: Option<Vec<u32>>)
        requires
            self.wf(),
        ensures
            match r {
                Some(v) => self@.contains_key(segment_id@) && v@ == self@[segment_id@],
                None => !self@.contains_key(segment_id@),
            },
    {
        match self.find(segment_id) {
            Some(i) => Some(self.entries[i].pids.clone()),
            None => None,
        }
    }

    /// Every tracked process id, segment after segment.
    pub fn all_pids(&self) -> (r: Vec<u32>)
        requires
            self.wf(),
        ensures
            forall|p: u32|
                r@.contains(p) <==> exists|k: Seq<char>| #[trigger] self@.contains_key(k)
                    && self@[k].contains(p),
    {
        let mut out: Vec<u32> = Vec::new();
        let mut i: usize = 0;
        while i < self.entries.len()
            invariant
                self.wf(),
                i <= self.entries@.len(),
                forall|p: u32|
                    out@.contains(p) <==> exists|j: int|
                        0 <= j < i && #[trigger] self.entries@[j].pids@.contains(p),
            decreases self.entries@.len() - i,
        {
            let pids = &self.entries[i].pids;
            let ghost before = out@;
            let mut t: usize = 0;
            while t < pids.len()
                invariant
                    t <= pids@.len(),
                    out@ == before + pids@.subrange(0, t as int),
                decreases pids@.len() - t,
            {
                out.push(pids[t]);
                t += 1;
                assert(out@ =~= before + pids@.subrange(0, t as int));
            }
            assert(pids@.subrange(0, t as int) =~= pids@);
            assert forall|p: u32| out@.contains(p) <==> exists|j: int|
                0 <= j < i + 1 && #[trigger] self.entries@[j].pids@.contains(p) by {
                if out@.contains(p) {
                    let x = choose|x: int| 0 <= x < out@.len() && out@[x] == p;
                    if x < before.len() {
                        assert(before[x] == p);
                        assert(before.contains(p));
                    } else {
                        assert(pids@[x - before.len()] == p);
                        assert(self.entries@[i as int].pids@.contains(p));
                    }
                }
                if exists|j: int| 0 <= j < i + 1 && #[trigger] self.entries@[j].pids@.contains(p) {
                    let j = choose|j: int|
                        0 <= j < i + 1 && #[trigger] self.entries@[j].pids@.contains(p);
                    if j < i {
                        assert(before.contains(p));
                        let x = choose|x: int| 0 <= x < before.len() && before[x] == p;
                        assert(out@[x] == p);
                    } else {
                        let x = choose|x: int| 0 <= x < pids@.len() && pids@[x] == p;
                        assert(out@[before.len() + x] == p);
                    }
                }
            }
            i += 1;
        }
        proof {
            assert forall|p: u32| out@.contains(p) <==> exists|k: Seq<char>|
                #[trigger] self@.contains_key(k) && self@[k].contains(p) by {
                if out@.contains(p) {
                    let j = choose|j: int|
                        0 <= j < self.entries@.len() && #[trigger] self.entries@[j].pids@.contains(p);
                    let k = self.entries@[j].segment_id@;
                    assert(self@.contains_key(k) && self@[k].contains(p));
                }
                if exists|k: Seq<char>| #[trigger] self@.contains_key(k) && self@[k].contains(p) {
                    let k = choose|k: Seq<char>| #[trigger] self@.contains_key(k) && self@[k].contains(p);
                    let j = choose|j: int|
                        0 <= j < self.entries@.len() && #[trigger] self.entries@[j].segment_id@ == k;
                    assert(self.entries@[j].pids@.contains(p));
                }
            }
        }
        out
    }
}

} // verus!
