use vstd::prelude::*;

use crate::config::OutputConfig;
use crate::request::{configured, enables_head, OutputConfiguration};

verus! {

/// A batch as a sequence of (output identity, request) pairs.
pub type BatchView = Seq<(usize, OutputConfiguration)>;

/// Every entry names an output of a registry with `n` outputs.
pub open spec fn batch_valid(b: BatchView, n: nat) -> bool {
    forall|i: int| 0 <= i < b.len() ==> (#[trigger] b[i]).0 < n
}

/// Every entry of the batch disables its output (true of an empty batch).
pub open spec fn all_disabled(b: BatchView) -> bool {
    forall|i: int| 0 <= i < b.len() ==> (#[trigger] b[i]).1 is Disabled
}

/// The records after applying the batch's requests one after another.
pub open spec fn apply_batch(c: Seq<OutputConfig>, b: BatchView) -> Seq<OutputConfig>
    decreases b.len(),
{
    if b.len() == 0 {
        c
    } else {
        let prev = apply_batch(c, b.drop_last());
        let (id, req) = b.last();
        prev.update(id as int, configured(prev[id as int], req))
    }
}

/// The snapshot taken of each entry's record just before its request is applied.
pub open spec fn backups_of(c: Seq<OutputConfig>, b: BatchView) -> Seq<(usize, OutputConfig)> {
    Seq::new(b.len(), |k: int| (b[k].0, apply_batch(c, b.take(k))[b[k].0 as int]))
}

/// The records after writing back the snapshots, last one first.
pub open spec fn restore_all(c: Seq<OutputConfig>, bk: Seq<(usize, OutputConfig)>) -> Seq<
    OutputConfig,
>
    decreases bk.len(),
{
    if bk.len() == 0 {
        c
    } else {
        restore_all(c.update(bk.last().0 as int, bk.last().1), bk.drop_last())
    }
}

/// One of the first `n` entries of the batch is for output `x` and leaves
/// its head enabled.
pub open spec fn enabled_among(b: BatchView, n: int, x: int) -> bool {
    exists|i: int| 0 <= i < n && (#[trigger] b[i]).0 == x && enables_head(b[i].1)
}

/// One of the first `n` entries of the batch is for output `x` and disables
/// it or makes it a mirror.
pub open spec fn disabled_among(b: BatchView, n: int, x: int) -> bool {
    exists|i: int| 0 <= i < n && (#[trigger] b[i]).0 == x && !enables_head(b[i].1)
}

/// Head classification after a batch: a head that some entry disables or
/// mirrors is disabled, else one that some entry enables is enabled, and
/// heads the batch does not name keep their state.
pub open spec fn synced_heads(h: Seq<bool>, b: BatchView) -> Seq<bool> {
    Seq::new(
        h.len(),
        |x: int|
            if disabled_among(b, b.len() as int, x) {
                false
            } else if enabled_among(b, b.len() as int, x) {
                true
            } else {
                h[x]
            },
    )
}

/// A prefix of a valid batch is valid.
pub proof fn lemma_valid_take(b: BatchView, n: nat, k: int)
    requires
        batch_valid(b, n),
        0 <= k <= b.len(),
    ensures
        batch_valid(b.take(k), n),
{
    assert forall|i: int| 0 <= i < k implies (#[trigger] b.take(k)[i]).0 < n by {
        assert(b.take(k)[i] == b[i]);
    }
}

/// Applying a valid batch keeps the number of records.
pub proof fn lemma_apply_batch_len(c: Seq<OutputConfig>, b: BatchView)
    requires
        batch_valid(b, c.len()),
    ensures
        apply_batch(c, b).len() == c.len(),
    decreases b.len(),
{
    if b.len() > 0 {
        assert(batch_valid(b.drop_last(), c.len())) by {
            assert forall|i: int| 0 <= i < b.len() - 1 implies (#[trigger] b.drop_last()[i]).0
                < c.len() by {
                assert(b.drop_last()[i] == b[i]);
            }
        }
        lemma_apply_batch_len(c, b.drop_last());
    }
}

/// The configuration records of every output, and the protocol-visible
/// enabled state of each output's head, indexed by output identity.
pub struct OutputRegistry {
    pub configs: Vec<OutputConfig>,
    pub heads: Vec<bool>,
}

impl OutputRegistry {
    /// Exactly one record and one head per output.
    pub open spec fn wf(&self) -> bool {
        self.configs@.len() == self.heads@.len()
    }

    /// An empty registry.
    pub fn new() -> (r: OutputRegistry)
        ensures
            r.wf(),
            r.configs@.len() == 0,
    {
        OutputRegistry { configs: Vec::new(), heads: Vec::new() }
    }

    /// Registers an output with its record and head state; returns its identity.
    pub fn add_output(&mut self, config: OutputConfig, head_enabled: bool) -> (id: usize)
        requires
            old(self).wf(),
            old(self).configs@.len() < usize::MAX,
        ensures
            final(self).wf(),
            id == old(self).configs@.len(),
            final(self).configs@ == old(self).configs@.push(config),
            final(self).heads@ == old(self).heads@.push(head_enabled),
    {
        let id = self.configs.len();
        self.configs.push(config);
        self.heads.push(head_enabled);
        id
    }

    /// Applies the batch's requests in order, and returns the snapshot of each
    /// entry's record taken just before its request was applied.
    pub fn stage(&mut self, batch: &Vec<(usize, OutputConfiguration)>) -> (backups: Vec<
        (usize, OutputConfig),
    >)
        requires
            old(self).wf(),
            batch_valid(batch@, old(self).configs@.len()),
        ensures
            final(self).wf(),
            final(self).configs@ == apply_batch(old(self).configs@, batch@),
            final(self).heads@ == old(self).heads@,
            backups@ == backups_of(old(self).configs@, batch@),
    {
        let ghost pre = self.configs@;
        let mut backups: Vec<(usize, OutputConfig)> = Vec::new();
        let mut i: usize = 0;
        while i < batch.len()
            invariant
                0 <= i <= batch@.len(),
                pre == old(self).configs@,
                self.wf(),
                self.heads@ == old(self).heads@,
                batch_valid(batch@, pre.len()),
                self.configs@ == apply_batch(pre, batch@.take(i as int)),
                backups@ == backups_of(pre, batch@).take(i as int),
            decreases batch@.len() - i,
        {
            let (id, req) = batch[i];
            proof {
                lemma_valid_take(batch@, pre.len(), i as int);
                lemma_apply_batch_len(pre, batch@.take(i as int));
            }
            let mut c = self.configs[id];
            backups.push((id, c));
            req.apply_to(&mut c);
            self.configs.set(id, c);
            proof {
                assert(batch@.take(i + 1).drop_last() =~= batch@.take(i as int));
                assert(backups@ =~= backups_of(pre, batch@).take(i + 1));
            }
            i += 1;
        }
        proof {
            assert(batch@.take(batch@.len() as int) =~= batch@);
            assert(backups@ =~= backups_of(pre, batch@));
        }
        backups
    }

    /// Writes the snapshots back, the last one first.
    pub fn restore(&mut self, backups: &Vec<(usize, OutputConfig)>)
        requires
            old(self).wf(),
            forall|k: int|
                0 <= k < backups@.len() ==> (#[trigger] backups@[k]).0 < old(self).configs@.len(),
        ensures
            final(self).wf(),
            final(self).configs@ == restore_all(old(self).configs@, backups@),
            final(self).heads@ == old(self).heads@,
    {
        let mut k: usize = backups.len();
        proof {
            assert(backups@.take(k as int) =~= backups@);
        }
        while k > 0
            invariant
                k <= backups@.len(),
                self.wf(),
                self.heads@ == old(self).heads@,
                self.configs@.len() == old(self).configs@.len(),
                forall|j: int|
                    0 <= j < backups@.len() ==> (#[trigger] backups@[j]).0
                        < old(self).configs@.len(),
                restore_all(self.configs@, backups@.take(k as int)) == restore_all(
                    old(self).configs@,
                    backups@,
                ),
            decreases k,
        {
            k -= 1;
            let (id, c) = backups[k];
            proof {
                assert(backups@.take(k + 1).drop_last() =~= backups@.take(k as int));
                assert(backups@.take(k + 1).last() == backups@[k as int]);
            }
            self.configs.set(id, c);
        }
        proof {
            assert(backups@.take(0) =~= Seq::<(usize, OutputConfig)>::empty());
        }
    }

    /// Brings the head of each output the batch names in line with its
    /// requests: first enabling, then disabling.
    pub fn sync_heads(&mut self, batch: &Vec<(usize, OutputConfiguration)>)
        requires
            old(self).wf(),
            batch_valid(batch@, old(self).configs@.len()),
        ensures
            final(self).wf(),
            final(self).configs@ == old(self).configs@,
            final(self).heads@ == synced_heads(old(self).heads@, batch@),
    {
        let ghost h0 = self.heads@;
        let ghost b = batch@;
        let mut i: usize = 0;
        while i < batch.len()
            invariant
                0 <= i <= b.len(),
                b == batch@,
                h0 == old(self).heads@,
                self.wf(),
                self.configs@ == old(self).configs@,
                batch_valid(b, h0.len()),
                self.heads@ == Seq::new(
                    h0.len(),
                    |x: int|
                        if enabled_among(b, i as int, x) {
                            true
                        } else {
                            h0[x]
                        },
                ),
            decreases b.len() - i,
        {
            let (id, req) = batch[i];
            if req.enables_head() {
                self.heads.set(id, true);
            }
            proof {
                assert forall|x: int| 0 <= x < h0.len() implies enabled_among(b, i + 1, x) == (
                enabled_among(b, i as int, x) || (x == id && enables_head(req))) by {
                    if enabled_among(b, i + 1, x) {
                        let j = choose|j: int|
                            0 <= j < i + 1 && (#[trigger] b[j]).0 == x && enables_head(b[j].1);
                        if j < i {
                            assert(enabled_among(b, i as int, x));
                        }
                    }
                    if x == id && enables_head(req) {
                        assert(b[i as int].0 == x);
                    }
                }
                assert(self.heads@ =~= Seq::new(
                    h0.len(),
                    |x: int|
                        if enabled_among(b, i + 1, x) {
                            true
                        } else {
                            h0[x]
                        },
                ));
            }
            i += 1;
        }
        let mut i: usize = 0;
        while i < batch.len()
            invariant
                0 <= i <= b.len(),
                b == batch@,
                h0 == old(self).heads@,
                self.wf(),
                self.configs@ == old(self).configs@,
                batch_valid(b, h0.len()),
                self.heads@ == Seq::new(
                    h0.len(),
                    |x: int|
                        if disabled_among(b, i as int, x) {
                            false
                        } else if enabled_among(b, b.len() as int, x) {
                            true
                        } else {
                            h0[x]
                        },
                ),
            decreases b.len() - i,
        {
            let (id, req) = batch[i];
            if !req.enables_head() {
                self.heads.set(id, false);
            }
            proof {
                assert forall|x: int| 0 <= x < h0.len() implies disabled_among(b, i + 1, x) == (
                disabled_among(b, i as int, x) || (x == id && !enables_head(req))) by {
                    if disabled_among(b, i + 1, x) {
                        let j = choose|j: int|
                            0 <= j < i + 1 && (#[trigger] b[j]).0 == x && !enables_head(b[j].1);
                        if j < i {
                            assert(disabled_among(b, i as int, x));
                        }
                    }
                    if x == id && !enables_head(req) {
                        assert(b[i as int].0 == x);
                    }
                }
                assert(self.heads@ =~= Seq::new(
                    h0.len(),
                    |x: int|
                        if disabled_among(b, i + 1, x) {
                            false
                        } else if enabled_among(b, b.len() as int, x) {
                            true
                        } else {
                            h0[x]
                        },
                ));
            }
            i += 1;
        }
        proof {
            assert(self.heads@ =~= synced_heads(h0, b));
        }
    }

    /// Whether every entry of the batch names an output of this registry.
    pub fn names_outputs_of(&self, batch: &Vec<(usize, OutputConfiguration)>) -> (r: bool)
        ensures
            r == batch_valid(batch@, self.configs@.len()),
    {
        let mut i: usize = 0;
        while i < batch.len()
            invariant
                0 <= i <= batch@.len(),
                forall|k: int| 0 <= k < i ==> (#[trigger] batch@[k]).0 < self.configs@.len(),
            decreases batch@.len() - i,
        {
            if batch[i].0 >= self.configs.len() {
                return false;
            }
            i += 1;
        }
        true
    }

    /// Number of outputs.
    pub fn len(&self) -> (n: usize)
        ensures
            n == self.configs@.len(),
    {
        self.configs.len()
    }

    /// The record of output `id`.
    pub fn config(&self, id: usize) -> (c: OutputConfig)
        requires
            id < self.configs@.len(),
        ensures
            c == self.configs@[id as int],
    {
        self.configs[id]
    }

    /// Whether the head of output `id` is enabled.
    pub fn head_enabled(&self, id: usize) -> (e: bool)
        requires
            self.wf(),
            id < self.configs@.len(),
        ensures
            e == self.heads@[id as int],
    {
        self.heads[id]
    }
}

} // verus!
