//! Open-time settings of an engine handle, and the admission policy that
//! bounds how many batches wait for a free replica.
use vstd::prelude::*;
use std::collections::VecDeque;
use crate::error::{EngineError, SettingsIssue};
use crate::names::{ComputeType, Device};

verus! {

/// How many batches may wait for a replica.
#[derive(Clone, Copy, Debug, PartialEq, Eq, Structural)]
pub enum QueueBound {
    Unbounded,
    AtMost(usize),
}

/// A negative setting means no bound.
pub open spec fn queue_bound_of(max_queued_batches: i32) -> QueueBound {
    if max_queued_batches < 0 {
        QueueBound::Unbounded
    } else {
        QueueBound::AtMost(max_queued_batches as usize)
    }
}

/// The device indices used when none are given.
pub open spec fn indices_or_default(indices: Seq<i32>) -> Seq<i32> {
    if indices.len() == 0 {
        seq![0i32]
    } else {
        indices
    }
}

/// The first issue, in a fixed order, with open-time settings.
pub open spec fn settings_issue(indices: Seq<i32>, inter_threads: usize) -> Option<SettingsIssue> {
    if inter_threads == 0 {
        Some(SettingsIssue::ZeroThreads)
    } else if exists|i: int| 0 <= i < indices.len() && #[trigger] indices[i] < 0 {
        Some(SettingsIssue::NegativeDeviceIndex)
    } else {
        None
    }
}

/// What an engine is opened with. One replica runs per device index.
pub struct EngineSettings {
    pub model_path: String,
    pub device: Device,
    pub device_indices: Vec<i32>,
    pub compute_type: ComputeType,
    /// Batches run in parallel per replica; positive.
    pub inter_threads: usize,
    /// Threads per batch; 0 lets the engine choose.
    pub intra_threads: usize,
    /// Negative: no bound on waiting batches.
    pub max_queued_batches: i32,
}

impl EngineSettings {
    pub open spec fn wf(&self) -> bool {
        &&& self.device_indices@.len() >= 1
        &&& self.inter_threads >= 1
        &&& forall|i: int| 0 <= i < self.device_indices@.len() ==> #[trigger] self.device_indices@[i] >= 0
    }

    /// Checks open-time settings; an empty index list stands for device 0.
    pub fn new(
        model_path: &str,
        device: Device,
        device_indices: &[i32],
        compute_type: ComputeType,
        inter_threads: usize,
        intra_threads: usize,
        max_queued_batches: i32,
    ) -> (r: Result<EngineSettings, EngineError>)
        ensures
            settings_issue(device_indices@, inter_threads) matches Some(issue) ==> r
                == Err::<EngineSettings, EngineError>(EngineError::Configuration(issue)),
            settings_issue(device_indices@, inter_threads) is None ==> (r matches Ok(s) && s.wf()
                && s.model_path@ == model_path@ && s.device == device && s.device_indices@
                == indices_or_default(device_indices@) && s.compute_type == compute_type
                && s.inter_threads == inter_threads && s.intra_threads == intra_threads
                && s.max_queued_batches == max_queued_batches),
    {
        if inter_threads == 0 {
            return Err(EngineError::Configuration(SettingsIssue::ZeroThreads));
        }
        let mut i: usize = 0;
        while i < device_indices.len()
            invariant
                inter_threads > 0,
                i <= device_indices@.len(),
                forall|j: int| 0 <= j < i ==> #[trigger] device_indices@[j] >= 0,
            decreases device_indices@.len() - i,
        {
            if device_indices[i] < 0 {
                assert(device_indices@[i as int] < 0);
                return Err(EngineError::Configuration(SettingsIssue::NegativeDeviceIndex));
            }
            i = i + 1;
        }
        let indices = if device_indices.len() == 0 {
            vec![0i32]
        } else {
            vstd::slice::slice_to_vec(device_indices)
        };
        proof {
            assert(indices@ =~= indices_or_default(device_indices@));
        }
        Ok(
            EngineSettings {
                model_path: model_path.to_owned(),
                device,
                device_indices: indices,
                compute_type,
                inter_threads,
                intra_threads,
                max_queued_batches,
            },
        )
    }

    pub fn num_replicas(&self) -> (r: usize)
        ensures
            r == self.device_indices@.len(),
    {
        self.device_indices.len()
    }

    pub fn queue_bound(&self) -> (r: QueueBound)
        ensures
            r == queue_bound_of(self.max_queued_batches),
    {
        if self.max_queued_batches < 0 {
            QueueBound::Unbounded
        } else {
            QueueBound::AtMost(self.max_queued_batches as usize)
        }
    }

    /// An admission controller for these settings, with nothing admitted.
    pub fn admission(&self) -> (r: Admission)
        requires
            self.wf(),
        ensures
            r.wf(),
            r@ == fresh_admission(self.device_indices@.len(), queue_bound_of(self.max_queued_batches)),
    {
        Admission::new(self.num_replicas(), self.queue_bound())
    }
}

/// Where an admitted batch went.
#[derive(Clone, Copy, Debug, PartialEq, Eq, Structural)]
pub enum Placement {
    /// A replica was free: decoding starts now.
    Started,
    /// Every replica is busy: the batch waits its turn.
    Queued,
}

/// The state of admission: replicas, bound, busy replicas, and the waiting
/// batches in submission order.
pub struct AdmissionView {
    pub replicas: nat,
    pub bound: QueueBound,
    pub active: nat,
    pub queued: Seq<u64>,
}

pub open spec fn fresh_admission(replicas: nat, bound: QueueBound) -> AdmissionView {
    AdmissionView { replicas, bound, active: 0, queued: Seq::empty() }
}

pub open spec fn admission_wf(v: AdmissionView) -> bool {
    &&& v.replicas >= 1
    &&& v.active <= v.replicas
    &&& v.queued.len() > 0 ==> v.active == v.replicas
    &&& v.bound matches QueueBound::AtMost(b) ==> v.queued.len() <= b
}

/// Where a submitted batch goes; `None` when it is refused as overloaded.
pub open spec fn submit_outcome(v: AdmissionView) -> Option<Placement> {
    if v.active < v.replicas {
        Some(Placement::Started)
    } else if (match v.bound {
        QueueBound::Unbounded => true,
        QueueBound::AtMost(b) => v.queued.len() < b,
    }) {
        Some(Placement::Queued)
    } else {
        None
    }
}

/// The state after submitting batch `id`.
pub open spec fn submit_next(v: AdmissionView, id: u64) -> AdmissionView {
    match submit_outcome(v) {
        Some(Placement::Started) => AdmissionView { active: v.active + 1, ..v },
        Some(Placement::Queued) => AdmissionView { queued: v.queued.push(id), ..v },
        None => v,
    }
}

/// The state after a running batch completes: the longest-waiting batch
/// takes its replica, if any waits.
pub open spec fn finish_next(v: AdmissionView) -> AdmissionView {
    if v.queued.len() > 0 {
        AdmissionView { queued: v.queued.drop_first(), ..v }
    } else {
        AdmissionView { active: (v.active - 1) as nat, ..v }
    }
}

/// Admission of batches onto a fixed pool of replicas, first come first
/// served, with a bound on how many may wait.
pub struct Admission {
    replicas: usize,
    bound: QueueBound,
    active: usize,
    queued: VecDeque<u64>,
}

impl View for Admission {
    type V = AdmissionView;

    closed spec fn view(&self) -> AdmissionView {
        AdmissionView {
            replicas: self.replicas as nat,
            bound: self.bound,
            active: self.active as nat,
            queued: self.queued@,
        }
    }
}

impl Admission {
    pub open spec fn wf(&self) -> bool {
        admission_wf(self@)
    }

    pub fn new(replicas: usize, bound: QueueBound) -> (r: Admission)
        requires
            replicas >= 1,
        ensures
            r.wf(),
            r@ == fresh_admission(replicas as nat, bound),
    {
        let r = Admission { replicas, bound, active: 0, queued: VecDeque::new() };
        proof {
            assert(r@.queued =~= Seq::<u64>::empty());
        }
        r
    }

    pub fn num_active_batches(&self) -> (r: usize)
        ensures
            r == self@.active,
    {
        self.active
    }

    pub fn num_queued_batches(&self) -> (r: usize)
        ensures
            r == self@.queued.len(),
    {
        self.queued.len()
    }

    /// Admits batch `id`, or refuses it with `Overloaded` when every replica
    /// is busy and the queue is at its bound.
    pub fn submit(&mut self, id: u64) -> (r: Result<Placement, EngineError>)
        requires
            old(self).wf(),
        ensures
            final(self).wf(),
            final(self)@ == submit_next(old(self)@, id),
            submit_outcome(old(self)@) matches Some(p) ==> r == Ok::<Placement, EngineError>(p),
            submit_outcome(old(self)@) is None ==> r matches Err(EngineError::Overloaded),
    {
        if self.active < self.replicas {
            self.active = self.active + 1;
            Ok(Placement::Started)
        } else {
            let room = match self.bound {
                QueueBound::Unbounded => true,
                QueueBound::AtMost(b) => self.queued.len() < b,
            };
            if room {
                self.queued.push_back(id);
                Ok(Placement::Queued)
            } else {
                Err(EngineError::Overloaded)
            }
        }
    }

    /// Records that a running batch completed; returns the waiting batch
    /// that starts on the freed replica, if any.
    pub fn finish(&mut self) -> (r: Option<u64>)
        requires
            old(self).wf(),
            old(self)@.active > 0,
        ensures
            final(self).wf(),
            final(self)@ == finish_next(old(self)@),
            r == (if old(self)@.queued.len() > 0 {
                Some(old(self)@.queued[0])
            } else {
                None::<u64>
            }),
    {
        match self.queued.pop_front() {
            Some(id) => {
                proof {
                    assert(final(self)@.queued =~= old(self)@.queued.drop_first());
                }
                Some(id)
            },
            None => {
                self.active = self.active - 1;
                None
            },
        }
    }
}

/// The state after submitting `ids` in order, with no batch completing.
pub open spec fn submit_all(v: AdmissionView, ids: Seq<u64>) -> AdmissionView
    decreases ids.len(),
{
    if ids.len() == 0 {
        v
    } else {
        submit_next(submit_all(v, ids.drop_last()), ids.last())
    }
}

/// With a zero queue bound, nothing ever waits: the first `replicas`
/// concurrent submissions start and every later one is refused as
/// overloaded, whatever the ids.
pub proof fn lemma_zero_bound_overload(replicas: nat, ids: Seq<u64>)
    requires
        replicas >= 1,
    ensures
        submit_all(fresh_admission(replicas, QueueBound::AtMost(0)), ids) == (AdmissionView {
            replicas,
            bound: QueueBound::AtMost(0),
            active: if ids.len() < replicas {
                ids.len()
            } else {
                replicas
            },
            queued: Seq::<u64>::empty(),
        }),
        forall|i: int|
            0 <= i < ids.len() ==> #[trigger] submit_outcome(
                submit_all(fresh_admission(replicas, QueueBound::AtMost(0)), ids.take(i)),
            ) == (if i < replicas {
                Some(Placement::Started)
            } else {
                None
            }),
    decreases ids.len(),
{
    let v = fresh_admission(replicas, QueueBound::AtMost(0));
    if ids.len() > 0 {
        let rest = ids.drop_last();
        lemma_zero_bound_overload(replicas, rest);
        assert forall|i: int| 0 <= i < ids.len() implies #[trigger] submit_outcome(
            submit_all(v, ids.take(i)),
        ) == (if i < replicas {
            Some(Placement::Started)
        } else {
            None
        }) by {
            if i < rest.len() {
                assert(ids.take(i) =~= rest.take(i));
            } else {
                assert(ids.take(i) =~= rest);
            }
        }
    }
}

} // verus!
