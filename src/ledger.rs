use vstd::prelude::*;
use crate::outpoint::OutPoint;

verus! {

/// The outputs that a sequence of references names.
pub open spec fn outpoint_set(s: Seq<OutPoint>) -> Set<(Seq<char>, u32)> {
    Set::new(|v: (Seq<char>, u32)| exists|i: int| 0 <= i < s.len() && #[trigger] s[i]@ == v)
}

/// No output is named twice.
pub open spec fn no_duplicates(s: Seq<OutPoint>) -> bool {
    forall|i: int, j: int| 0 <= i < j < s.len() ==> #[trigger] s[i]@ != #[trigger] s[j]@
}

/// The record of outputs already committed to a constructed transaction.
///
/// Its view is the set of recorded outputs. The records are kept once each;
/// their order carries no meaning.
pub struct CachedOutputs {
    outputs: Vec<OutPoint>,
}

impl View for CachedOutputs {
    type V = Set<(Seq<char>, u32)>;

    closed spec fn view(&self) -> Set<(Seq<char>, u32)> {
        outpoint_set(self.outputs@)
    }
}

impl CachedOutputs {
    /// Well-formed: every output is recorded once.
    pub closed spec fn wf(&self) -> bool {
        no_duplicates(self.outputs@)
    }

    /// An empty record.
    pub fn empty() -> (r: CachedOutputs)
        ensures
            r.wf(),
            r@ == Set::<(Seq<char>, u32)>::empty(),
    {
        let r = CachedOutputs { outputs: Vec::new() };
        assert(r@ =~= Set::<(Seq<char>, u32)>::empty());
        r
    }

    /// The record as loaded from its durable copy: the decoded records when
    /// decoding succeeded, and an empty record when the copy was missing,
    /// empty or unreadable.
    pub fn new(records: Option<Vec<OutPoint>>) -> (r: CachedOutputs)
        ensures
            r.wf(),
            r@ == match records {
                Some(v) => outpoint_set(v@),
                None => Set::<(Seq<char>, u32)>::empty(),
            },
    {
        let mut r = CachedOutputs::empty();
        match records {
            Some(v) => {
                r.insert_all(&v);
                assert(r@ =~= outpoint_set(v@));
            },
            None => {},
        }
        r
    }

    /// Whether `o` is recorded.
    pub fn contains(&self, o: &OutPoint) -> (r: bool)
        requires
            self.wf(),
        ensures
            r == self@.contains(o@),
    {
        let mut i: usize = 0;
        while i < self.outputs.len()
            invariant
                0 <= i <= self.outputs.len(),
                forall|k: int| 0 <= k < i ==> #[trigger] self.outputs@[k]@ != o@,
            decreases self.outputs.len() - i,
        {
            if self.outputs[i].same_as(o) {
                assert(self.outputs@[i as int]@ == o@);
                return true;
            }
            i = i + 1;
        }
        proof {
            if self@.contains(o@) {
                let k = choose|k: int| 0 <= k < self.outputs@.len() && #[trigger] self.outputs@[k]@ == o@;
            }
        }
        false
    }

    /// Records `o`; a recorded output stays recorded once.
    pub fn insert(&mut self, o: OutPoint)
        requires
            old(self).wf(),
        ensures
            final(self).wf(),
            final(self)@ == old(self)@.insert(o@),
    {
        if !self.contains(&o) {
            let ghost prev = self.outputs@;
            self.outputs.push(o);
            proof {
                assert(self.outputs@ == prev.push(o));
                assert forall|i: int, j: int| 0 <= i < j < self.outputs@.len() implies
                    #[trigger] self.outputs@[i]@ != #[trigger] self.outputs@[j]@ by {
                    if j == prev.len() {
                        assert(outpoint_set(prev).contains(prev[i]@));
                    }
                }
                assert forall|v: (Seq<char>, u32)| #[trigger] self@.contains(v) <==> old(self)@.insert(o@).contains(v) by {
                    if old(self)@.contains(v) {
                        let k = choose|k: int| 0 <= k < prev.len() && #[trigger] prev[k]@ == v;
                        assert(self.outputs@[k]@ == v);
                    }
                    if v == o@ {
                        assert(self.outputs@[prev.len() as int]@ == v);
                    }
                    if self@.contains(v) {
                        let k = choose|k: int| 0 <= k < self.outputs@.len() && #[trigger] self.outputs@[k]@ == v;
                        if k < prev.len() {
                            assert(prev[k]@ == v);
                        }
                    }
                }
                assert(self@ =~= old(self)@.insert(o@));
            }
        } else {
            assert(old(self)@.insert(o@) =~= old(self)@);
        }
    }

    /// Records every output of `refs`, keeping each once.
    pub fn insert_all(&mut self, refs: &Vec<OutPoint>)
        requires
            old(self).wf(),
        ensures
            final(self).wf(),
            final(self)@ == old(self)@.union(outpoint_set(refs@)),
    {
        let mut i: usize = 0;
        while i < refs.len()
            invariant
                0 <= i <= refs.len(),
                self.wf(),
                self@ == old(self)@.union(outpoint_set(refs@.subrange(0, i as int))),
            decreases refs.len() - i,
        {
            let ghost before = self@;
            self.insert(refs[i].copied());
            proof {
                assert forall|v: (Seq<char>, u32)| #[trigger] outpoint_set(refs@.subrange(0, i + 1)).contains(v)
                    <==> outpoint_set(refs@.subrange(0, i as int)).insert(refs@[i as int]@).contains(v) by {
                    if outpoint_set(refs@.subrange(0, i + 1)).contains(v) {
                        let k = choose|k: int| 0 <= k < i + 1 && #[trigger] refs@.subrange(0, i + 1)[k]@ == v;
                        if k < i {
                            assert(refs@.subrange(0, i as int)[k]@ == v);
                        }
                    }
                    if outpoint_set(refs@.subrange(0, i as int)).contains(v) {
                        let k = choose|k: int| 0 <= k < i && #[trigger] refs@.subrange(0, i as int)[k]@ == v;
                        assert(refs@.subrange(0, i + 1)[k]@ == v);
                    }
                    if v == refs@[i as int]@ {
                        assert(refs@.subrange(0, i + 1)[i as int]@ == v);
                    }
                }
                assert(outpoint_set(refs@.subrange(0, i + 1)) =~= outpoint_set(refs@.subrange(0, i as int)).insert(refs@[i as int]@));
                assert(self@ =~= old(self)@.union(outpoint_set(refs@.subrange(0, i + 1))));
            }
            i = i + 1;
        }
        assert(refs@.subrange(0, refs@.len() as int) =~= refs@);
    }

    /// The recorded outputs, each once, for writing the durable copy.
    pub fn records(&self) -> (r: Vec<OutPoint>)
        requires
            self.wf(),
        ensures
            no_duplicates(r@),
            outpoint_set(r@) == self@,
    {
        let mut r: Vec<OutPoint> = Vec::new();
        let mut i: usize = 0;
        while i < self.outputs.len()
            invariant
                0 <= i <= self.outputs.len(),
                r@.len() == i,
                forall|k: int| 0 <= k < i ==> (#[trigger] r@[k])@ == self.outputs@[k]@,
            decreases self.outputs.len() - i,
        {
            r.push(self.outputs[i].copied());
            i = i + 1;
        }
        proof {
            assert forall|v: (Seq<char>, u32)| #[trigger] outpoint_set(r@).contains(v) <==> self@.contains(v) by {
                if outpoint_set(r@).contains(v) {
                    let k = choose|k: int| 0 <= k < r@.len() && #[trigger] r@[k]@ == v;
                    assert(self.outputs@[k]@ == v);
                }
                if self@.contains(v) {
                    let k = choose|k: int| 0 <= k < self.outputs@.len() && #[trigger] self.outputs@[k]@ == v;
                    assert(r@[k]@ == v);
                }
            }
            assert(outpoint_set(r@) =~= self@);
            assert forall|a: int, b: int| 0 <= a < b < r@.len() implies #[trigger] r@[a]@ != #[trigger] r@[b]@ by {
                assert(self.outputs@[a]@ == r@[a]@);
                assert(self.outputs@[b]@ == r@[b]@);
            }
        }
        r
    }

    /// How many outputs are recorded.
    pub fn len(&self) -> (r: usize)
        requires
            self.wf(),
        ensures
            r == self@.len(),
    {
        proof { self.lemma_len(); }
        self.outputs.len()
    }

    proof fn lemma_len(&self)
        requires
            self.wf(),
        ensures
            self@.finite(),
            self@.len() == self.outputs@.len(),
    {
        crate::ledger::lemma_set_len(self.outputs@);
    }
}

/// Recording two outputs in an empty record, writing the records out and
/// loading what was written gives back exactly those two outputs.
pub proof fn lemma_durable_round_trip(a: OutPoint, b: OutPoint, saved: Seq<OutPoint>)
    requires
        outpoint_set(saved) == Set::<(Seq<char>, u32)>::empty().union(outpoint_set(seq![a, b])),
    ensures
        outpoint_set(saved) == set![a@, b@],
{
    let s = seq![a, b];
    assert(s[0]@ == a@ && s[1]@ == b@);
    assert forall|v: (Seq<char>, u32)| #[trigger] outpoint_set(s).contains(v) <==> set![a@, b@].contains(v) by {
        if outpoint_set(s).contains(v) {
            let k = choose|k: int| 0 <= k < s.len() && #[trigger] s[k]@ == v;
        }
    }
    assert(outpoint_set(saved) =~= set![a@, b@]);
}

proof fn lemma_set_len(s: Seq<OutPoint>)
    requires
        no_duplicates(s),
    ensures
        outpoint_set(s).finite(),
        outpoint_set(s).len() == s.len(),
    decreases s.len(),
{
    if s.len() == 0 {
        assert(outpoint_set(s) =~= Set::<(Seq<char>, u32)>::empty());
    } else {
        let p = s.drop_last();
        assert(no_duplicates(p)) by {
            assert forall|i: int, j: int| 0 <= i < j < p.len() implies #[trigger] p[i]@ != #[trigger] p[j]@ by {
                assert(p[i] == s[i] && p[j] == s[j]);
            }
        }
        lemma_set_len(p);
        assert forall|v: (Seq<char>, u32)| #[trigger] outpoint_set(s).contains(v) <==> outpoint_set(p).insert(s.last()@).contains(v) by {
            if outpoint_set(s).contains(v) {
                let k = choose|k: int| 0 <= k < s.len() && #[trigger] s[k]@ == v;
                if k < p.len() {
                    assert(p[k]@ == v);
                }
            }
            if outpoint_set(p).contains(v) {
                let k = choose|k: int| 0 <= k < p.len() && #[trigger] p[k]@ == v;
                assert(s[k]@ == v);
            }
            if v == s.last()@ {
                assert(s[s.len() - 1]@ == v);
            }
        }
        assert(outpoint_set(s) =~= outpoint_set(p).insert(s.last()@));
        if outpoint_set(p).contains(s.last()@) {
            let k = choose|k: int| 0 <= k < p.len() && #[trigger] p[k]@ == s.last()@;
            assert(s[k]@ == s[s.len() - 1]@);
        }
    }
}

} // verus!
