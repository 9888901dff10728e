use vstd::prelude::*;

use crate::config::OutputConfig;
use crate::laws::lemma_rollback_restores;
use crate::registry::{
    all_disabled, apply_batch, backups_of, batch_valid, lemma_apply_batch_len, synced_heads,
    BatchView, OutputRegistry,
};
use crate::request::OutputConfiguration;

verus! {

/// Where a transaction stands.
#[derive(Clone, Copy, Debug, PartialEq, Eq, Structural)]
pub enum Phase {
    /// The batch is staged; the backend is being programmed with it.
    AwaitingApply,
    /// The backend accepted the batch; the global output state is being refreshed.
    AwaitingRefresh,
    /// The backend rejected a commit and the records were rolled back; the
    /// backend is being programmed again from them.
    AwaitingReset,
    /// Nothing more to do.
    Done,
}

/// What the caller reports back after carrying out an action.
#[derive(Clone, Copy, Debug, PartialEq, Eq, Structural)]
pub enum Event {
    BackendAccepted,
    BackendRejected,
    Refreshed,
}

/// What the caller is to do next.
#[derive(Clone, Copy, Debug, PartialEq, Eq, Structural)]
pub enum Action {
    /// Program the backend from the registry's records (as a dry run when
    /// `test_only`), and report whether it accepted.
    ApplyBackend { test_only: bool },
    /// Program the backend from the rolled-back records, committing, and
    /// report whether it accepted.
    ResetBackend,
    /// Refresh the global output state, then report `Event::Refreshed`.
    Refresh,
    /// The batch is applied: persist the outputs, schedule the deferred
    /// notification of clients, and report success.
    Commit,
    /// The batch is not applied and the records are as they were: report
    /// failure. `reset_failed`: the backend also refused the reset, so its
    /// state may now differ from the records.
    Abort { reset_failed: bool },
}

impl Action {
    /// What the transaction reports once it is over: `Some(true)` when the
    /// batch was applied, `Some(false)` when it was not, `None` while the
    /// caller still has work to do.
    pub fn outcome(&self) -> (r: Option<bool>)
        ensures
            r == (match *self {
                Action::Commit => Some(true),
                Action::Abort { .. } => Some(false),
                _ => None::<bool>,
            }),
    {
        match self {
            Action::Commit => Some(true),
            Action::Abort { .. } => Some(false),
            _ => None,
        }
    }
}

/// The next phase and action, from the current phase and the reported event.
pub open spec fn transition(p: Phase, test_only: bool, e: Event) -> (Phase, Action) {
    match p {
        Phase::AwaitingApply => match e {
            Event::BackendAccepted => (Phase::AwaitingRefresh, Action::Refresh),
            _ => if test_only {
                (Phase::Done, Action::Abort { reset_failed: false })
            } else {
                (Phase::AwaitingReset, Action::ResetBackend)
            },
        },
        Phase::AwaitingReset => match e {
            Event::BackendAccepted => (Phase::Done, Action::Abort { reset_failed: false }),
            _ => (Phase::Done, Action::Abort { reset_failed: true }),
        },
        Phase::AwaitingRefresh => (Phase::Done, Action::Commit),
        Phase::Done => (Phase::Done, Action::Abort { reset_failed: false }),
    }
}

/// Whether the transaction waits for this event: a backend outcome while the
/// backend is being programmed, the end of the refresh while refreshing.
pub open spec fn expects(p: Phase, e: Event) -> bool {
    match p {
        Phase::AwaitingApply | Phase::AwaitingReset => !(e is Refreshed),
        Phase::AwaitingRefresh => e is Refreshed,
        Phase::Done => false,
    }
}

/// Whether every request of the batch disables its output.
pub fn disables_every_output(batch: &Vec<(usize, OutputConfiguration)>) -> (r: bool)
    ensures
        r == all_disabled(batch@),
{
    let mut i: usize = 0;
    while i < batch.len()
        invariant
            0 <= i <= batch@.len(),
            forall|k: int| 0 <= k < i ==> (#[trigger] batch@[k]).1 is Disabled,
        decreases batch@.len() - i,
    {
        if !batch[i].1.is_disabled() {
            return false;
        }
        i += 1;
    }
    true
}

/// What starting a transaction does: a batch that disables every output it
/// names is refused and nothing changes; any other batch is staged into the
/// registry, and the backend is to be programmed from it next.
pub open spec fn started(
    pre: OutputRegistry,
    post: OutputRegistry,
    test_only: bool,
    batch: BatchView,
    r: Option<(Transaction, Action)>,
) -> bool {
    &&& r is None <==> all_disabled(batch)
    &&& r is None ==> post.configs@ == pre.configs@ && post.heads@ == pre.heads@
    &&& r matches Some((t, a)) ==> {
        &&& t.inv(post)
        &&& t.phase() == Phase::AwaitingApply
        &&& t.test_only() == test_only
        &&& t.batch() == batch
        &&& t.pre() == pre.configs@
        &&& t.pre_heads() == pre.heads@
        &&& post.configs@ == apply_batch(pre.configs@, batch)
        &&& post.heads@ == pre.heads@
        &&& a == Action::ApplyBackend { test_only }
    }
}

/// Starts a transaction for the batch, as a dry run when `test_only`.
pub fn output_configuration(
    reg: &mut OutputRegistry,
    test_only: bool,
    batch: Vec<(usize, OutputConfiguration)>,
) -> (r: Option<(Transaction, Action)>)
    requires
        old(reg).wf(),
        batch_valid(batch@, old(reg).configs@.len()),
    ensures
        started(*old(reg), *final(reg), test_only, batch@, r),
{
    if disables_every_output(&batch) {
        return None;
    }
    let ghost pre = reg.configs@;
    let ghost pre_heads = reg.heads@;
    let backups = reg.stage(&batch);
    let t = Transaction {
        test_only,
        batch,
        backups,
        phase: Phase::AwaitingApply,
        pre: Ghost(pre),
        pre_heads: Ghost(pre_heads),
    };
    Some((t, Action::ApplyBackend { test_only }))
}

/// Starts a dry-run transaction for the batch.
pub fn test_configuration(reg: &mut OutputRegistry, batch: Vec<(usize, OutputConfiguration)>) -> (r:
    Option<(Transaction, Action)>)
    requires
        old(reg).wf(),
        batch_valid(batch@, old(reg).configs@.len()),
    ensures
        started(*old(reg), *final(reg), true, batch@, r),
{
    output_configuration(reg, true, batch)
}

/// Starts a committing transaction for the batch.
pub fn apply_configuration(reg: &mut OutputRegistry, batch: Vec<(usize, OutputConfiguration)>) -> (r:
    Option<(Transaction, Action)>)
    requires
        old(reg).wf(),
        batch_valid(batch@, old(reg).configs@.len()),
    ensures
        started(*old(reg), *final(reg), false, batch@, r),
{
    output_configuration(reg, false, batch)
}

/// One batch of output configuration requests in flight.
pub struct Transaction {
    test_only: bool,
    batch: Vec<(usize, OutputConfiguration)>,
    backups: Vec<(usize, OutputConfig)>,
    phase: Phase,
    pre: Ghost<Seq<OutputConfig>>,
    pre_heads: Ghost<Seq<bool>>,
}

impl Transaction {
    /// Whether the backend is programmed as a dry run.
    pub closed spec fn test_only(&self) -> bool {
        self.test_only
    }

    /// The requests being applied, in order.
    pub closed spec fn batch(&self) -> BatchView {
        self.batch@
    }

    /// Where the transaction stands.
    pub closed spec fn phase(&self) -> Phase {
        self.phase
    }

    /// The records as they were before the batch was staged.
    pub closed spec fn pre(&self) -> Seq<OutputConfig> {
        self.pre@
    }

    /// The head states as they were before the batch was staged.
    pub closed spec fn pre_heads(&self) -> Seq<bool> {
        self.pre_heads@
    }

    /// The registry holds what the phase says: the staged batch until the
    /// backend rejects it, the earlier records after a rollback.
    pub closed spec fn inv(&self, reg: OutputRegistry) -> bool {
        &&& reg.wf()
        &&& self.pre@.len() == reg.configs@.len()
        &&& self.pre_heads@.len() == reg.heads@.len()
        &&& batch_valid(self.batch@, self.pre@.len())
        &&& self.backups@ == backups_of(self.pre@, self.batch@)
        &&& match self.phase {
            Phase::AwaitingApply | Phase::AwaitingRefresh => {
                &&& reg.configs@ == apply_batch(self.pre@, self.batch@)
                &&& reg.heads@ == self.pre_heads@
            },
            Phase::AwaitingReset => {
                &&& reg.configs@ == self.pre@
                &&& reg.heads@ == self.pre_heads@
            },
            Phase::Done => true,
        }
    }

    /// Whether `step` takes this event now.
    pub fn accepts(&self, e: Event) -> (r: bool)
        ensures
            r == expects(self.phase(), e),
    {
        match self.phase {
            Phase::AwaitingApply | Phase::AwaitingReset => !matches!(e, Event::Refreshed),
            Phase::AwaitingRefresh => matches!(e, Event::Refreshed),
            Phase::Done => false,
        }
    }

    /// Advances the transaction on a reported event. A rejection by the
    /// backend rolls the records back; the end of the refresh brings the
    /// heads the batch names in line with it.
    pub fn step(&mut self, reg: &mut OutputRegistry, e: Event) -> (a: Action)
        requires
            old(self).inv(*old(reg)),
            expects(old(self).phase(), e),
        ensures
            final(self).inv(*final(reg)),
            final(self).test_only() == old(self).test_only(),
            final(self).batch() == old(self).batch(),
            final(self).pre() == old(self).pre(),
            final(self).pre_heads() == old(self).pre_heads(),
            (final(self).phase(), a) == transition(old(self).phase(), old(self).test_only(), e),
            final(reg).configs@ == (if old(self).phase() is AwaitingApply && e is BackendRejected {
                old(self).pre()
            } else {
                old(reg).configs@
            }),
            final(reg).heads@ == (if old(self).phase() is AwaitingRefresh {
                synced_heads(old(reg).heads@, old(self).batch())
            } else {
                old(reg).heads@
            }),
            a is Commit ==> final(reg).configs@ == apply_batch(old(self).pre(), old(self).batch())
                && final(reg).heads@ == synced_heads(old(self).pre_heads(), old(self).batch()),
            a is Abort ==> final(reg).configs@ == old(self).pre() && final(reg).heads@ == old(
                self,
            ).pre_heads(),
    {
        match self.phase {
            Phase::AwaitingApply => {
                if matches!(e, Event::BackendAccepted) {
                    self.phase = Phase::AwaitingRefresh;
                    Action::Refresh
                } else {
                    proof {
                        lemma_apply_batch_len(self.pre@, self.batch@);
                        lemma_rollback_restores(self.pre@, self.batch@);
                    }
                    reg.restore(&self.backups);
                    if self.test_only {
                        self.phase = Phase::Done;
                        Action::Abort { reset_failed: false }
                    } else {
                        self.phase = Phase::AwaitingReset;
                        Action::ResetBackend
                    }
                }
            },
            Phase::AwaitingReset => {
                self.phase = Phase::Done;
                Action::Abort { reset_failed: matches!(e, Event::BackendRejected) }
            },
            _ => {
                reg.sync_heads(&self.batch);
                self.phase = Phase::Done;
                Action::Commit
            },
        }
    }
}

} // verus!
