use vstd::prelude::*;
use crate::job::JobStatus;
use crate::resolver::str_eq;

verus! {

/// The identifiers of a record sequence are pairwise distinct.
pub open spec fn unique_ids(s: Seq<JobStatus>) -> bool {
    forall|i: int, j: int|
        0 <= i < j < s.len() ==> (#[trigger] s[i]).job_id@ != (#[trigger] s[j]).job_id@
}

/// Some record in the sequence carries this identifier.
pub open spec fn has_id(s: Seq<JobStatus>, k: Seq<char>) -> bool {
    exists|i: int| 0 <= i < s.len() && (#[trigger] s[i]).job_id@ == k
}

/// The mapping a record sequence stands for, keyed by job identifier.
pub open spec fn map_of(s: Seq<JobStatus>) -> Map<Seq<char>, JobStatus>
    decreases s.len(),
{
    if s.len() == 0 {
        Map::empty()
    } else {
        map_of(s.drop_last()).insert(s.last().job_id@, s.last())
    }
}

proof fn lemma_map_of_contains(s: Seq<JobStatus>, k: Seq<char>)
    ensures
        map_of(s).contains_key(k) <==> has_id(s, k),
    decreases s.len(),
{
    if s.len() > 0 {
        lemma_map_of_contains(s.drop_last(), k);
        if s.last().job_id@ == k {
            assert(s[s.len() - 1].job_id@ == k);
        } else {
            if has_id(s, k) {
                let i = choose|i: int| 0 <= i < s.len() && s[i].job_id@ == k;
                assert(s.drop_last()[i] == s[i]);
            }
            if has_id(s.drop_last(), k) {
                let i = choose|i: int|
                    0 <= i < s.drop_last().len() && s.drop_last()[i].job_id@ == k;
                assert(s[i] == s.drop_last()[i]);
            }
        }
    }
}

proof fn lemma_unique_drop_last(s: Seq<JobStatus>)
    requires
        unique_ids(s),
        s.len() > 0,
    ensures
        unique_ids(s.drop_last()),
{
    assert forall|i: int, j: int| 0 <= i < j < s.drop_last().len() implies (
    #[trigger] s.drop_last()[i]).job_id@ != (#[trigger] s.drop_last()[j]).job_id@ by {
        assert(s.drop_last()[i] == s[i]);
        assert(s.drop_last()[j] == s[j]);
    }
}

proof fn lemma_map_of_index(s: Seq<JobStatus>, i: int)
    requires
        unique_ids(s),
        0 <= i < s.len(),
    ensures
        map_of(s).contains_key(s[i].job_id@),
        map_of(s)[s[i].job_id@] == s[i],
    decreases s.len(),
{
    if i < s.len() - 1 {
        lemma_unique_drop_last(s);
        assert(s.drop_last()[i] == s[i]);
        lemma_map_of_index(s.drop_last(), i);
        assert(s[i].job_id@ != s.last().job_id@);
    }
}

proof fn lemma_map_of_remove(s: Seq<JobStatus>, i: int)
    requires
        unique_ids(s),
        0 <= i < s.len(),
    ensures
        map_of(s.remove(i)) =~= map_of(s).remove(s[i].job_id@),
    decreases s.len(),
{
    let k = s[i].job_id@;
    s.remove_ensures(i);
    lemma_unique_drop_last(s);
    if i == s.len() - 1 {
        assert(s.remove(i) =~= s.drop_last());
        lemma_map_of_contains(s.drop_last(), k);
        if has_id(s.drop_last(), k) {
            let j = choose|j: int|
                0 <= j < s.drop_last().len() && s.drop_last()[j].job_id@ == k;
            assert(s[j] == s.drop_last()[j]);
            assert(false);
        }
        assert(map_of(s).remove(k) =~= map_of(s.drop_last()));
    } else {
        let rem = s.remove(i);
        let dl = s.drop_last();
        assert(rem.drop_last() =~= dl.remove(i)) by {
            dl.remove_ensures(i);
        }
        assert(rem.last() == s.last());
        lemma_map_of_remove(dl, i);
        assert(dl[i] == s[i]);
        assert(k != s.last().job_id@);
        assert(map_of(rem) == map_of(dl.remove(i)).insert(s.last().job_id@, s.last()));
        assert(map_of(dl).remove(k).insert(s.last().job_id@, s.last()) =~= map_of(dl).insert(
            s.last().job_id@,
            s.last(),
        ).remove(k));
    }
}

proof fn lemma_unique_remove(s: Seq<JobStatus>, i: int)
    requires
        unique_ids(s),
        0 <= i < s.len(),
    ensures
        unique_ids(s.remove(i)),
        !has_id(s.remove(i), s[i].job_id@),
{
    s.remove_ensures(i);
    let rem = s.remove(i);
    assert forall|a: int, b: int| 0 <= a < b < rem.len() implies (#[trigger] rem[a]).job_id@ != (
    #[trigger] rem[b]).job_id@ by {
        if a < i {
            assert(rem[a] == s[a]);
        } else {
            assert(rem[a] == s[a + 1]);
        }
        if b < i {
            assert(rem[b] == s[b]);
        } else {
            assert(rem[b] == s[b + 1]);
        }
    }
    if has_id(rem, s[i].job_id@) {
        let j = choose|j: int| 0 <= j < rem.len() && rem[j].job_id@ == s[i].job_id@;
        if j < i {
            assert(rem[j] == s[j]);
        } else {
            assert(rem[j] == s[j + 1]);
        }
        assert(false);
    }
}

/// The in-memory table of job records, keyed by job identifier and shared by
/// all orchestrators and status readers. A record is replaced whole, never
/// field by field, so a reader always observes a self-consistent record.
pub struct JobStore {
    jobs: Vec<JobStatus>,
}

impl View for JobStore {
    type V = Map<Seq<char>, JobStatus>;

    closed spec fn view(&self) -> Map<Seq<char>, JobStatus> {
        map_of(self.jobs@)
    }
}

impl JobStore {
    /// Internal invariant: exactly one record per identifier, and only
    /// self-consistent records — a reader never observes anything else.
    pub closed spec fn wf(self) -> bool {
        &&& unique_ids(self.jobs@)
        &&& (forall|i: int| 0 <= i < self.jobs@.len() ==> (#[trigger] self.jobs@[i]).consistent())
    }

    /// An empty store.
    pub fn new() -> (r: JobStore)
        ensures
            r.wf(),
            r@ == Map::<Seq<char>, JobStatus>::empty(),
    {
        JobStore { jobs: Vec::new() }
    }

    fn find_index(&self, id: &str) -> (r: Option<usize>)
        ensures
            (r matches Some(i) ==> i < self.jobs@.len() && self.jobs@[i as int].job_id@ == id@),
            (r is None ==> !has_id(self.jobs@, id@)),
    {
        let n = self.jobs.len();
        let mut i: usize = 0;
        while i < n
            invariant
                i <= n,
                n == self.jobs@.len(),
                forall|j: int| 0 <= j < i ==> (#[trigger] self.jobs@[j]).job_id@ != id@,
            decreases n - i,
        {
            if str_eq(self.jobs[i].job_id.as_str(), id) {
                return Some(i);
            }
            i = i + 1;
        }
        None
    }

    /// Inserts or replaces the record under its own identifier: submitting
    /// the same identifier again overwrites, the later record wins, and the
    /// store never grows a duplicate entry.
    pub fn insert(&mut self, st: JobStatus)
        requires
            old(self).wf(),
            st.consistent(),
        ensures
            final(self).wf(),
            final(self)@ == old(self)@.insert(st.job_id@, st),
    {
        let ghost k = st.job_id@;
        let ghost s0 = self.jobs@;
        match self.find_index(st.job_id.as_str()) {
            Some(i) => {
                proof {
                    lemma_map_of_remove(s0, i as int);
                    lemma_unique_remove(s0, i as int);
                }
                let _replaced = self.jobs.remove(i);
                let ghost s1 = self.jobs@;
                proof {
                    s0.remove_ensures(i as int);
                    assert forall|j: int| 0 <= j < s1.len() implies (
                    #[trigger] s1[j]).consistent() by {
                        if j < i as int {
                            assert(s1[j] == s0[j]);
                        } else {
                            assert(s1[j] == s0[j + 1]);
                        }
                    }
                }
                self.jobs.push(st);
                proof {
                    assert(self.jobs@.drop_last() =~= s1);
                    assert(self.jobs@.last() == st);
                    assert(map_of(self.jobs@) == map_of(s1).insert(k, st));
                    assert(map_of(s0).remove(k).insert(k, st) =~= map_of(s0).insert(k, st));
                    assert forall|a: int, b: int| 0 <= a < b < self.jobs@.len() implies (
                    #[trigger] self.jobs@[a]).job_id@ != (#[trigger] self.jobs@[b]).job_id@ by {
                        if b < self.jobs@.len() - 1 {
                            assert(self.jobs@[a] == s1[a]);
                            assert(self.jobs@[b] == s1[b]);
                        } else {
                            assert(self.jobs@[a] == s1[a]);
                        }
                    }
                }
            },
            None => {
                self.jobs.push(st);
                proof {
                    assert(self.jobs@.drop_last() =~= s0);
                    assert(self.jobs@.last() == st);
                    assert(map_of(self.jobs@) == map_of(s0).insert(k, st));
                    assert forall|a: int, b: int| 0 <= a < b < self.jobs@.len() implies (
                    #[trigger] self.jobs@[a]).job_id@ != (#[trigger] self.jobs@[b]).job_id@ by {
                        if b < self.jobs@.len() - 1 {
                            assert(self.jobs@[a] == s0[a]);
                            assert(self.jobs@[b] == s0[b]);
                        } else {
                            assert(self.jobs@[a] == s0[a]);
                        }
                    }
                }
            },
        }
    }

    /// Status by identifier: the current record verbatim, or none when the
    /// identifier is unknown.
    pub fn get(&self, id: &str) -> (r: Option<&JobStatus>)
        requires
            self.wf(),
        ensures
            (r matches Some(st) ==> self@.contains_key(id@) && *st == self@[id@] && st.job_id@
                == id@ && st.consistent()),
            (r is None ==> !self@.contains_key(id@)),
    {
        proof {
            lemma_map_of_contains(self.jobs@, id@);
        }
        match self.find_index(id) {
            Some(i) => {
                proof {
                    lemma_map_of_index(self.jobs@, i as int);
                }
                Some(&self.jobs[i])
            },
            None => None,
        }
    }

    /// The entire current contents: every record in the table, each under a
    /// distinct identifier.
    pub fn entries(&self) -> (v: &Vec<JobStatus>)
        requires
            self.wf(),
        ensures
            forall|i: int|
                0 <= i < v@.len() ==> self@.contains_key((#[trigger] v@[i]).job_id@)
                    && self@[v@[i].job_id@] == v@[i],
            forall|k: Seq<char>| #[trigger] self@.contains_key(k) ==> has_id(v@, k),
            unique_ids(v@),
            forall|i: int| 0 <= i < v@.len() ==> (#[trigger] v@[i]).consistent(),
    {
        proof {
            assert forall|i: int|
                0 <= i < self.jobs@.len() implies self@.contains_key(
                (#[trigger] self.jobs@[i]).job_id@,
            ) && self@[self.jobs@[i].job_id@] == self.jobs@[i] by {
                lemma_map_of_index(self.jobs@, i);
            }
            assert forall|k: Seq<char>| #[trigger] self@.contains_key(k) implies has_id(
                self.jobs@,
                k,
            ) by {
                lemma_map_of_contains(self.jobs@, k);
            }
        }
        &self.jobs
    }
}

/// Resubmitting a job identifier overwrites: the later record wins, exactly
/// as if the earlier one had never been stored.
pub proof fn lemma_resubmit_overwrites(
    m: Map<Seq<char>, JobStatus>,
    id: Seq<char>,
    first: JobStatus,
    second: JobStatus,
)
    ensures
        m.insert(id, first).insert(id, second) =~= m.insert(id, second),
{
}

} // verus!
