use vstd::prelude::*;

use crate::subject::DeploySubject;

verus! {

/// How far the deploy and run pipelines got for one subject on one node.
#[derive(Clone, Copy, Debug, PartialEq, Eq, Structural)]
pub struct SubjectStatus {
    pub deploy_archive_copied: bool,
    pub deploy_archive_extracted: bool,
    pub deploy_archive_tested: bool,
    pub deployed: bool,
    pub running: bool,
}

/// The status of a subject that nothing has been done with.
pub open spec fn fresh_status() -> SubjectStatus {
    SubjectStatus {
        deploy_archive_copied: false,
        deploy_archive_extracted: false,
        deploy_archive_tested: false,
        deployed: false,
        running: false,
    }
}

impl SubjectStatus {
    pub fn new() -> (r: SubjectStatus)
        ensures
            r == fresh_status(),
    {
        SubjectStatus {
            deploy_archive_copied: false,
            deploy_archive_extracted: false,
            deploy_archive_tested: false,
            deployed: false,
            running: false,
        }
    }
}

/// The status kept for a connected node: whether it is connected, what
/// platform it reported, and a status per deploy subject.
#[derive(Debug)]
pub struct ConnStatus {
    pub connected: bool,
    pub subjects: Vec<(DeploySubject, SubjectStatus)>,
    pub platform: String,
}

pub struct ConnStatusView {
    pub connected: bool,
    pub platform: Seq<char>,
    pub subjects: Map<DeploySubject, SubjectStatus>,
}

/// The status recorded for `s`, or the fresh status when none is.
pub open spec fn status_in(entries: Seq<(DeploySubject, SubjectStatus)>, s: DeploySubject) -> SubjectStatus {
    if exists|i: int| 0 <= i < entries.len() && (#[trigger] entries[i]).0 == s {
        entries[choose|i: int| 0 <= i < entries.len() && (#[trigger] entries[i]).0 == s].1
    } else {
        fresh_status()
    }
}

impl View for ConnStatus {
    type V = ConnStatusView;

    open spec fn view(&self) -> ConnStatusView {
        ConnStatusView {
            connected: self.connected,
            platform: self.platform@,
            subjects: Map::total(|s: DeploySubject| status_in(self.subjects@, s)),
        }
    }
}

impl ConnStatus {
    /// Each subject is recorded at most once.
    pub open spec fn wf(&self) -> bool {
        forall|i: int, j: int|
            0 <= i < j < self.subjects@.len() ==> (#[trigger] self.subjects@[i]).0 != (
            #[trigger] self.subjects@[j]).0
    }

    pub fn new(connected: bool) -> (r: ConnStatus)
        ensures
            r.wf(),
            r@.connected == connected,
            r@.platform == Seq::<char>::empty(),
            r@.subjects == Map::total(|s: DeploySubject| fresh_status()),
    {
        let r = ConnStatus { connected: connected, subjects: Vec::new(), platform: String::new() };
        assert(r@.subjects =~= Map::total(|s: DeploySubject| fresh_status()));
        r
    }

    /// An independent copy of this status.
    pub fn snapshot(&self) -> (r: ConnStatus)
        requires
            self.wf(),
        ensures
            r.wf(),
            r.subjects@ == self.subjects@,
            r@ == self@,
    {
        let mut subjects: Vec<(DeploySubject, SubjectStatus)> = Vec::new();
        let mut i: usize = 0;
        while i < self.subjects.len()
            invariant
                i <= self.subjects@.len(),
                subjects@ == self.subjects@.subrange(0, i as int),
            decreases self.subjects@.len() - i,
        {
            subjects.push(self.subjects[i]);
            i = i + 1;
            assert(subjects@ =~= self.subjects@.subrange(0, i as int));
        }
        assert(subjects@ =~= self.subjects@);
        ConnStatus { connected: self.connected, subjects: subjects, platform: self.platform.clone() }
    }

    fn position(&self, subject: DeploySubject) -> (r: Option<usize>)
        requires
            self.wf(),
        ensures
            match r {
                Some(i) => i < self.subjects@.len() && self.subjects@[i as int].0 == subject
                    && status_in(self.subjects@, subject) == self.subjects@[i as int].1,
                None => status_in(self.subjects@, subject) == fresh_status() && forall|
                    i: int,
                | 0 <= i < self.subjects@.len() ==> (#[trigger] self.subjects@[i]).0 != subject,
            },
    {
        let mut i: usize = 0;
        while i < self.subjects.len()
            invariant
                self.wf(),
                i <= self.subjects@.len(),
                forall|j: int| 0 <= j < i ==> (#[trigger] self.subjects@[j]).0 != subject,
            decreases self.subjects@.len() - i,
        {
            if self.subjects[i].0 == subject {
                assert(self.subjects@[i as int].0 == subject);
                return Some(i);
            }
            i = i + 1;
        }
        None
    }

    /// The status of `subject`; a subject never set has the fresh status.
    pub fn get_subject(&self, subject: DeploySubject) -> (r: SubjectStatus)
        requires
            self.wf(),
        ensures
            r == self@.subjects[subject],
    {
        match self.position(subject) {
            Some(i) => self.subjects[i].1,
            None => SubjectStatus::new(),
        }
    }

    /// Records `status` as the status of `subject`, in place of the old one.
    pub fn set_subject(&mut self, subject: DeploySubject, status: SubjectStatus)
        requires
            old(self).wf(),
        ensures
            final(self).wf(),
            final(self)@.connected == old(self)@.connected,
            final(self)@.platform == old(self)@.platform,
            final(self)@.subjects == old(self)@.subjects.insert(subject, status),
    {
        let ghost pre = self.subjects@;
        match self.position(subject) {
            Some(i) => {
                self.subjects.remove(i);
            },
            None => {},
        }
        let ghost mid = self.subjects@;
        assert(forall|j: int| 0 <= j < mid.len() ==> (#[trigger] mid[j]).0 != subject) by {
            assert forall|j: int| 0 <= j < mid.len() implies (#[trigger] mid[j]).0 != subject by {
                if mid.len() < pre.len() {
                    let i = choose|i: int| 0 <= i < pre.len() && pre[i].0 == subject && mid == pre.remove(i);
                    let j0 = if j < i { j } else { j + 1 };
                    assert(mid[j] == pre[j0]);
                }
            }
        }
        self.subjects.push((subject, status));
        let ghost post = self.subjects@;
        assert(post[mid.len() as int] == (subject, status));
        assert forall|a: int, b: int| 0 <= a < b < post.len() implies (#[trigger] post[a]).0 != (
        #[trigger] post[b]).0 by {
            if b < mid.len() {
                assert(post[a] == mid[a] && post[b] == mid[b]);
                if mid.len() < pre.len() {
                    let i = choose|i: int| 0 <= i < pre.len() && pre[i].0 == subject && mid == pre.remove(i);
                    let a0 = if a < i { a } else { a + 1 };
                    let b0 = if b < i { b } else { b + 1 };
                    assert(mid[a] == pre[a0] && mid[b] == pre[b0]);
                }
            } else {
                assert(post[a] == mid[a]);
            }
        }
        assert forall|s: DeploySubject| #[trigger] status_in(post, s) == old(self)@.subjects.insert(subject, status)[s] by {
            if s == subject {
                assert(post[mid.len() as int].0 == s);
            } else {
                assert forall|k: int| 0 <= k < post.len() && (#[trigger] post[k]).0 == s implies 0 <= k < mid.len() && mid[k] == post[k] by {}
                if exists|k: int| 0 <= k < pre.len() && (#[trigger] pre[k]).0 == s {
                    let k0 = choose|k: int| 0 <= k < pre.len() && (#[trigger] pre[k]).0 == s;
                    let k = if mid.len() < pre.len() {
                        let i = choose|i: int| 0 <= i < pre.len() && pre[i].0 == subject && mid == pre.remove(i);
                        if k0 < i { k0 } else { k0 - 1 }
                    } else { k0 };
                    assert(post[k] == pre[k0]);
                } else {
                    assert forall|k: int| 0 <= k < post.len() implies (#[trigger] post[k]).0 != s by {
                        if k < mid.len() && mid.len() < pre.len() {
                            let i = choose|i: int| 0 <= i < pre.len() && pre[i].0 == subject && mid == pre.remove(i);
                            let k0 = if k < i { k } else { k + 1 };
                            assert(post[k] == pre[k0]);
                        } else if k < mid.len() {
                            assert(post[k] == pre[k]);
                        }
                    }
                }
            }
        }
        assert(self@.subjects =~= old(self)@.subjects.insert(subject, status));
    }
}

} // verus!
