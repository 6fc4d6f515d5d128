//! The redaction policy: a pure, total transformation applied to every
//! transaction of every relayed block.
//!
//! A transaction carries two independent shielded pools, the Sapling
//! outputs and the Orchard actions; each entry of either pool holds an
//! ephemeral public key and an encrypted payload. The policy, in fixed
//! order per transaction:
//! 1. if the Sapling output count reaches the configured threshold,
//!    clears key and payload of every entry in both pools (entry counts
//!    are preserved);
//! 2. if Sapling exclusion is configured, removes all Sapling outputs;
//! 3. if Orchard exclusion is configured, removes all Orchard actions.
//!
//! Block and transaction boundaries are never split, merged, reordered
//! or dropped.

use vstd::prelude::*;
use crate::config::{Config, SpecConfig};

verus! {

/// Mathematical view of one shielded entry.
#[verifier::ext_equal]
pub struct SpecEntry {
    pub epk: Seq<u8>,
    pub ciphertext: Seq<u8>,
}

/// Mathematical view of one transaction record: its two pools.
#[verifier::ext_equal]
pub struct SpecTx {
    pub outputs: Seq<SpecEntry>,
    pub actions: Seq<SpecEntry>,
}

/// Mathematical view of one compact block: its identity and its
/// ordered transactions.
#[verifier::ext_equal]
pub struct SpecBlock {
    pub height: nat,
    pub hash: Seq<u8>,
    pub vtx: Seq<SpecTx>,
}

/// One shielded output entry: an ephemeral public key and an encrypted
/// payload, both variable-length byte strings.
pub struct ShieldedEntry {
    pub epk: Vec<u8>,
    pub ciphertext: Vec<u8>,
}

/// One compact transaction: Sapling outputs and Orchard actions.
pub struct CompactTx {
    pub outputs: Vec<ShieldedEntry>,
    pub actions: Vec<ShieldedEntry>,
}

/// One compact block: its chain identity and an ordered sequence of
/// compact transactions. Redaction never touches the identity.
pub struct CompactBlock {
    pub height: u64,
    pub hash: Vec<u8>,
    pub vtx: Vec<CompactTx>,
}

impl View for ShieldedEntry {
    type V = SpecEntry;

    open spec fn view(&self) -> SpecEntry {
        SpecEntry { epk: self.epk@, ciphertext: self.ciphertext@ }
    }
}

/// The view of a pool held as a vector of entries.
pub open spec fn pool_view(entries: Seq<ShieldedEntry>) -> Seq<SpecEntry> {
    entries.map_values(|e: ShieldedEntry| e@)
}

impl View for CompactTx {
    type V = SpecTx;

    open spec fn view(&self) -> SpecTx {
        SpecTx { outputs: pool_view(self.outputs@), actions: pool_view(self.actions@) }
    }
}

impl View for CompactBlock {
    type V = SpecBlock;

    open spec fn view(&self) -> SpecBlock {
        SpecBlock {
            height: self.height as nat,
            hash: self.hash@,
            vtx: self.vtx@.map_values(|t: CompactTx| t@),
        }
    }
}

/// An entry with both fields cleared to zero length.
pub open spec fn cleared_entry() -> SpecEntry {
    SpecEntry { epk: Seq::empty(), ciphertext: Seq::empty() }
}

/// Every entry of the pool, its content discarded; the count kept.
pub open spec fn cleared_pool(pool: Seq<SpecEntry>) -> Seq<SpecEntry> {
    pool.map_values(|e: SpecEntry| cleared_entry())
}

/// The redaction policy on one transaction, in the fixed order:
/// threshold truncation, then Sapling exclusion, then Orchard exclusion.
pub open spec fn spec_redact_tx(c: SpecConfig, t: SpecTx) -> SpecTx {
    let truncated = if t.outputs.len() >= c.max_outputs_actions {
        SpecTx { outputs: cleared_pool(t.outputs), actions: cleared_pool(t.actions) }
    } else {
        t
    };
    let sapling_done = if c.exclude_sapling {
        SpecTx { outputs: Seq::empty(), actions: truncated.actions }
    } else {
        truncated
    };
    if c.exclude_orchard {
        SpecTx { outputs: sapling_done.outputs, actions: Seq::empty() }
    } else {
        sapling_done
    }
}

/// The redaction policy on one block: every transaction redacted in
/// place, independently; count and order untouched.
pub open spec fn spec_redact_block(c: SpecConfig, b: SpecBlock) -> SpecBlock {
    SpecBlock { height: b.height, hash: b.hash, vtx: b.vtx.map_values(|t: SpecTx| spec_redact_tx(c, t)) }
}

/// A fresh pool of the same length whose entries are all cleared.
fn clear_entries(entries: &Vec<ShieldedEntry>) -> (r: Vec<ShieldedEntry>)
    ensures
        pool_view(r@) == cleared_pool(pool_view(entries@)),
{
    let mut out: Vec<ShieldedEntry> = Vec::new();
    let n = entries.len();
    let mut i: usize = 0;
    while i < n
        invariant
            n == entries.len(),
            i <= n,
            out@.len() == i as nat,
            forall|j: int| 0 <= j < i ==> out@[j]@ == cleared_entry(),
        decreases n - i,
    {
        out.push(ShieldedEntry { epk: Vec::new(), ciphertext: Vec::new() });
        i += 1;
    }
    proof {
        assert(pool_view(out@) =~~= cleared_pool(pool_view(entries@)));
    }
    out
}

/// Apply the redaction policy to one transaction, in place.
///
/// Total: no input is rejected and no error can arise.
pub fn redact_tx(config: &Config, tx: &mut CompactTx)
    ensures
        final(tx)@ == spec_redact_tx(config@, old(tx)@),
{
    if tx.outputs.len() >= config.max_outputs_actions as usize {
        tx.outputs = clear_entries(&tx.outputs);
        tx.actions = clear_entries(&tx.actions);
    }
    if config.exclude_sapling {
        tx.outputs = Vec::new();
    }
    if config.exclude_orchard {
        tx.actions = Vec::new();
    }
    proof {
        assert(tx@ =~~= spec_redact_tx(config@, old(tx)@));
    }
}

/// Apply the redaction policy to every transaction of a block, in
/// place. Transaction count and order are untouched.
pub fn redact_block(config: &Config, block: &mut CompactBlock)
    ensures
        final(block)@ == spec_redact_block(config@, old(block)@),
{
    let n = block.vtx.len();
    let mut i: usize = 0;
    while i < n
        invariant
            n == block.vtx.len(),
            i <= n,
            block.height == old(block).height,
            block.hash@ == old(block).hash@,
            block.vtx@.len() == old(block).vtx@.len(),
            forall|j: int| 0 <= j < i ==> block.vtx@[j]@ == spec_redact_tx(config@, old(block).vtx@[j]@),
            forall|j: int| i <= j < n ==> block.vtx@[j] == old(block).vtx@[j],
        decreases n - i,
    {
        redact_tx(config, &mut block.vtx[i]);
        i += 1;
    }
    proof {
        assert(block@ =~~= spec_redact_block(config@, old(block)@));
    }
}

/// Law: redaction never alters a block's identity, nor the count of its
/// transactions; only shielded entry content, or a whole pool's
/// presence within a transaction, can change.
pub proof fn lemma_redact_preserves_block_identity(c: SpecConfig, b: SpecBlock)
    ensures
        spec_redact_block(c, b).height == b.height,
        spec_redact_block(c, b).hash == b.hash,
        spec_redact_block(c, b).vtx.len() == b.vtx.len(),
{
}

/// Law: with both exclusion flags off and a Sapling output count below
/// the threshold, redaction is the identity transformation.
pub proof fn lemma_redact_identity(c: SpecConfig, t: SpecTx)
    requires
        !c.exclude_sapling,
        !c.exclude_orchard,
        t.outputs.len() < c.max_outputs_actions,
    ensures
        spec_redact_tx(c, t) == t,
{
}

/// Law: when the Sapling output count reaches the threshold, every
/// entry left in either pool of the result is cleared, and a pool that
/// is not excluded keeps its entry count.
pub proof fn lemma_redact_truncates(c: SpecConfig, t: SpecTx)
    requires
        t.outputs.len() >= c.max_outputs_actions,
    ensures
        ({
            let r = spec_redact_tx(c, t);
            &&& forall|i: int| 0 <= i < r.outputs.len() ==> r.outputs[i] == cleared_entry()
            &&& forall|i: int| 0 <= i < r.actions.len() ==> r.actions[i] == cleared_entry()
            &&& !c.exclude_sapling ==> r.outputs.len() == t.outputs.len()
            &&& !c.exclude_orchard ==> r.actions.len() == t.actions.len()
        }),
{
}

/// Law: Sapling exclusion leaves the result with no Sapling outputs,
/// whatever the threshold and the Orchard pool hold.
pub proof fn lemma_exclude_sapling(c: SpecConfig, t: SpecTx)
    requires
        c.exclude_sapling,
    ensures
        spec_redact_tx(c, t).outputs == Seq::<SpecEntry>::empty(),
{
}

/// Law: Orchard exclusion leaves the result with no Orchard actions,
/// independent of how the Sapling pool was handled.
pub proof fn lemma_exclude_orchard(c: SpecConfig, t: SpecTx)
    requires
        c.exclude_orchard,
    ensures
        spec_redact_tx(c, t).actions == Seq::<SpecEntry>::empty(),
{
}

/// Law: redaction is idempotent; a second pass under the same
/// configuration changes nothing.
pub proof fn lemma_redact_idempotent(c: SpecConfig, t: SpecTx)
    ensures
        spec_redact_tx(c, spec_redact_tx(c, t)) == spec_redact_tx(c, t),
{
    let r = spec_redact_tx(c, t);
    assert(cleared_pool(cleared_pool(t.outputs)) =~~= cleared_pool(t.outputs));
    assert(cleared_pool(cleared_pool(t.actions)) =~~= cleared_pool(t.actions));
    assert(cleared_pool(Seq::<SpecEntry>::empty()) =~~= Seq::<SpecEntry>::empty());
    assert(spec_redact_tx(c, r) =~~= r);
}

} // verus!
