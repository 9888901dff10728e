use vstd::prelude::*;

use crate::config::{ModeSetting, OutputConfig, OutputState, Position, Scale, Transform};
use crate::registry::{
    apply_batch, backups_of, batch_valid, disabled_among, enabled_among, lemma_apply_batch_len,
    lemma_valid_take, restore_all, synced_heads, BatchView,
};
use crate::request::{
    configured, enables_head, mode_setting, or_keep, refresh_bits, ModeConfiguration, OutputConfiguration,
};

verus! {

/// Rollback law: writing back the snapshots taken while a batch was staged
/// returns every record to exactly its state before the batch.
pub proof fn lemma_rollback_restores(pre: Seq<OutputConfig>, b: BatchView)
    requires
        batch_valid(b, pre.len()),
    ensures
        restore_all(apply_batch(pre, b), backups_of(pre, b)) == pre,
    decreases b.len(),
{
    if b.len() == 0 {
        assert(backups_of(pre, b) =~= Seq::<(usize, OutputConfig)>::empty());
    } else {
        let n = b.len() - 1;
        let b0 = b.drop_last();
        assert(b0 =~= b.take(n));
        lemma_valid_take(b, pre.len(), n);
        assert forall|k: int| 0 <= k <= n implies #[trigger] b.take(k) =~= b0.take(k) by {}
        assert(backups_of(pre, b).drop_last() =~= backups_of(pre, b0));
        let p = apply_batch(pre, b0);
        lemma_apply_batch_len(pre, b0);
        let id = b[n].0 as int;
        assert(backups_of(pre, b).last() == (b[n].0, p[id]));
        assert(apply_batch(pre, b).update(id, p[id]) =~= p);
        lemma_rollback_restores(pre, b0);
    }
}


/// No output is named by two entries of the batch.
pub open spec fn names_distinct(b: BatchView) -> bool {
    forall|i: int, j: int| 0 <= i < b.len() && 0 <= j < b.len() && i != j ==> b[i].0 != b[j].0
}

/// Outcome of an accepted batch whose entries name distinct outputs: each
/// named output's record is its old record with the request applied (the
/// requested fields set, the others unchanged) and its head is enabled
/// exactly when the request enables it without a mirror target; outputs the
/// batch does not name keep their record and their head.
pub proof fn lemma_accepted_batch(pre: Seq<OutputConfig>, heads: Seq<bool>, b: BatchView)
    requires
        batch_valid(b, pre.len()),
        heads.len() == pre.len(),
        names_distinct(b),
    ensures
        forall|i: int|
            0 <= i < b.len() ==> {
                &&& apply_batch(pre, b)[(#[trigger] b[i]).0 as int] == configured(
                    pre[b[i].0 as int],
                    b[i].1,
                )
                &&& synced_heads(heads, b)[b[i].0 as int] == enables_head(b[i].1)
            },
        forall|x: int|
            0 <= x < pre.len() && !(exists|i: int| 0 <= i < b.len() && (#[trigger] b[i]).0 == x)
                ==> apply_batch(pre, b)[x] == pre[x] && synced_heads(heads, b)[x] == heads[x],
    decreases b.len(),
{
    lemma_apply_batch_len(pre, b);
    assert forall|i: int| 0 <= i < b.len() implies synced_heads(heads, b)[(#[trigger] b[i]).0 as int]
        == enables_head(b[i].1) by {
        let x = b[i].0 as int;
        if enables_head(b[i].1) {
            assert(enabled_among(b, b.len() as int, x));
            if disabled_among(b, b.len() as int, x) {
                let j = choose|j: int|
                    0 <= j < b.len() && (#[trigger] b[j]).0 == x && !enables_head(b[j].1);
                assert(j != i);
            }
        } else {
            assert(disabled_among(b, b.len() as int, x));
        }
    }
    if b.len() > 0 {
        let n = b.len() - 1;
        let b0 = b.drop_last();
        assert(b0 =~= b.take(n));
        lemma_valid_take(b, pre.len(), n);
        assert(names_distinct(b0)) by {
            assert forall|i: int, j: int|
                0 <= i < b0.len() && 0 <= j < b0.len() && i != j implies b0[i].0 != b0[j].0 by {
                assert(b0[i] == b[i] && b0[j] == b[j]);
            }
        }
        lemma_accepted_batch(pre, heads, b0);
        lemma_apply_batch_len(pre, b0);
        let last = b[n].0 as int;
        assert forall|i: int| 0 <= i < n implies #[trigger] b0[i].0 != last by {
            assert(b0[i] == b[i]);
        }
        assert(apply_batch(pre, b0)[last] == pre[last]);
        assert forall|i: int| 0 <= i < b.len() implies apply_batch(pre, b)[(#[trigger] b[i]).0 as int]
            == configured(pre[b[i].0 as int], b[i].1) by {
            if i < n {
                assert(b0[i] == b[i]);
            }
        }
        assert forall|x: int|
            0 <= x < pre.len() && !(exists|i: int| 0 <= i < b.len() && (#[trigger] b[i]).0 == x)
                implies apply_batch(pre, b)[x] == pre[x] by {
            assert(b[n].0 != x);
            if exists|i: int| 0 <= i < b0.len() && (#[trigger] b0[i]).0 == x {
                let i = choose|i: int| 0 <= i < b0.len() && (#[trigger] b0[i]).0 == x;
                assert(b[i] == b0[i]);
            }
        }
    }
    assert forall|x: int|
        0 <= x < pre.len() && !(exists|i: int| 0 <= i < b.len() && (#[trigger] b[i]).0 == x)
            implies synced_heads(heads, b)[x] == heads[x] by {
        if disabled_among(b, b.len() as int, x) {
            let j = choose|j: int|
                0 <= j < b.len() && (#[trigger] b[j]).0 == x && !enables_head(b[j].1);
        }
        if enabled_among(b, b.len() as int, x) {
            let j = choose|j: int| 0 <= j < b.len() && (#[trigger] b[j]).0 == x && enables_head(b[j].1);
        }
    }
}

/// Mode selection: a known mode sets both size and refresh from that mode;
/// a custom mode sets its size, and its refresh only when given, never
/// keeping the refresh the record had before.
pub proof fn lemma_mode_selection(c: OutputConfig, r: OutputConfiguration)
    ensures
        r matches OutputConfiguration::Enabled { mode: Some(ModeConfiguration::Mode(m)), .. }
            ==> configured(c, r).mode == (ModeSetting {
            width: m.width,
            height: m.height,
            refresh: Some(refresh_bits(m.refresh)),
        }),
        r matches OutputConfiguration::Enabled {
            mode: Some(ModeConfiguration::Custom { width, height, refresh }),
            ..
        } ==> configured(c, r).mode.width == width && configured(c, r).mode.height == height && (
        refresh is None <==> configured(c, r).mode.refresh is None),
{
}


/// The fields that a run of requests overwrites, with the last value
/// written to each.
pub struct FieldWrites {
    pub mode: Option<ModeSetting>,
    pub scale: Option<Scale>,
    pub transform: Option<Transform>,
    pub position: Option<Position>,
    pub vrr: Option<bool>,
    pub enabled: Option<OutputState>,
}

/// Overwrites nothing.
pub open spec fn no_writes() -> FieldWrites {
    FieldWrites {
        mode: None,
        scale: None,
        transform: None,
        position: None,
        vrr: None,
        enabled: None,
    }
}

/// The later value where there is one, else the earlier.
pub open spec fn latest<T>(earlier: Option<T>, later: Option<T>) -> Option<T> {
    match later {
        Some(v) => Some(v),
        None => earlier,
    }
}

/// The fields one request overwrites.
pub open spec fn writes_of(r: OutputConfiguration) -> FieldWrites {
    match r {
        OutputConfiguration::Disabled => FieldWrites {
            enabled: Some(OutputState::Disabled),
            ..no_writes()
        },
        OutputConfiguration::Enabled {
            mirroring,
            mode,
            scale,
            transform,
            position,
            adaptive_sync,
        } => FieldWrites {
            mode: match mode {
                Some(m) => Some(mode_setting(m)),
                None => None,
            },
            scale,
            transform,
            position,
            vrr: adaptive_sync,
            enabled: Some(
                match mirroring {
                    Some(t) => OutputState::Mirroring(t),
                    None => OutputState::Enabled,
                },
            ),
        },
    }
}

/// Writes `p`, then `q`.
pub open spec fn then_writes(p: FieldWrites, q: FieldWrites) -> FieldWrites {
    FieldWrites {
        mode: latest(p.mode, q.mode),
        scale: latest(p.scale, q.scale),
        transform: latest(p.transform, q.transform),
        position: latest(p.position, q.position),
        vrr: latest(p.vrr, q.vrr),
        enabled: latest(p.enabled, q.enabled),
    }
}

/// A record with the given fields overwritten.
pub open spec fn written(c: OutputConfig, p: FieldWrites) -> OutputConfig {
    OutputConfig {
        mode: or_keep(p.mode, c.mode),
        scale: or_keep(p.scale, c.scale),
        transform: or_keep(p.transform, c.transform),
        position: or_keep(p.position, c.position),
        vrr: or_keep(p.vrr, c.vrr),
        enabled: or_keep(p.enabled, c.enabled),
    }
}

/// The fields that the batch's entries for output `x` overwrite, in order.
pub open spec fn batch_writes(b: BatchView, x: int) -> FieldWrites
    decreases b.len(),
{
    if b.len() == 0 {
        no_writes()
    } else if b.last().0 == x {
        then_writes(batch_writes(b.drop_last(), x), writes_of(b.last().1))
    } else {
        batch_writes(b.drop_last(), x)
    }
}

/// Each record after a batch is its old record with the batch's writes for it.
proof fn lemma_batch_is_writes(c: Seq<OutputConfig>, b: BatchView, x: int)
    requires
        batch_valid(b, c.len()),
        0 <= x < c.len(),
    ensures
        apply_batch(c, b)[x] == written(c[x], batch_writes(b, x)),
    decreases b.len(),
{
    if b.len() > 0 {
        let n = b.len() - 1;
        assert(b.drop_last() =~= b.take(n));
        lemma_valid_take(b, c.len(), n);
        lemma_batch_is_writes(c, b.drop_last(), x);
        lemma_apply_batch_len(c, b.drop_last());
    }
}

/// Idempotence: applying an accepted batch a second time changes no record
/// and no head.
pub proof fn lemma_apply_twice(c: Seq<OutputConfig>, heads: Seq<bool>, b: BatchView)
    requires
        batch_valid(b, c.len()),
    ensures
        apply_batch(apply_batch(c, b), b) == apply_batch(c, b),
        synced_heads(synced_heads(heads, b), b) == synced_heads(heads, b),
{
    let once = apply_batch(c, b);
    lemma_apply_batch_len(c, b);
    lemma_apply_batch_len(once, b);
    assert forall|x: int| 0 <= x < c.len() implies #[trigger] apply_batch(once, b)[x] == once[x] by {
        lemma_batch_is_writes(c, b, x);
        lemma_batch_is_writes(once, b, x);
    }
    assert(apply_batch(once, b) =~= once);
    assert(synced_heads(synced_heads(heads, b), b) =~= synced_heads(heads, b));
}

} // verus!
