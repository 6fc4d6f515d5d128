use lwd_proxy::config::Config;
use lwd_proxy::redact::{redact_block, redact_tx, CompactBlock, CompactTx, ShieldedEntry};

fn cfg(threshold: u32, exclude_sapling: bool, exclude_orchard: bool) -> Config {
    Config {
        upstream_lwd: String::from("http://upstream.example:9067"),
        bind_addr: String::from("127.0.0.1:9067"),
        max_outputs_actions: threshold,
        exclude_sapling,
        exclude_orchard,
    }
}

fn entry(tag: u8) -> ShieldedEntry {
    ShieldedEntry {
        epk: vec![tag, tag, tag],
        ciphertext: vec![tag, 0x55, tag],
    }
}

fn entries_equal(a: &ShieldedEntry, b: &ShieldedEntry) -> bool {
    a.epk == b.epk && a.ciphertext == b.ciphertext
}

fn txs_equal(a: &CompactTx, b: &CompactTx) -> bool {
    a.outputs.len() == b.outputs.len()
        && a.actions.len() == b.actions.len()
        && a.outputs.iter().zip(b.outputs.iter()).all(|(x, y)| entries_equal(x, y))
        && a.actions.iter().zip(b.actions.iter()).all(|(x, y)| entries_equal(x, y))
}

#[test]
fn identity_below_threshold() {
    let c = cfg(3, false, false);
    let mut tx = CompactTx {
        outputs: vec![entry(1), entry(2)],
        actions: vec![entry(3)],
    };
    redact_tx(&c, &mut tx);
    assert_eq!(tx.outputs.len(), 2);
    assert_eq!(tx.actions.len(), 1);
    assert!(entries_equal(&tx.outputs[0], &entry(1)));
    assert!(entries_equal(&tx.outputs[1], &entry(2)));
    assert!(entries_equal(&tx.actions[0], &entry(3)));
}

#[test]
fn truncation_at_threshold_clears_both_pools() {
    let c = cfg(2, false, false);
    let mut tx = CompactTx {
        outputs: vec![entry(1), entry(2)],
        actions: vec![entry(3)],
    };
    redact_tx(&c, &mut tx);
    assert_eq!(tx.outputs.len(), 2);
    assert_eq!(tx.actions.len(), 1);
    for e in tx.outputs.iter().chain(tx.actions.iter()) {
        assert!(e.epk.is_empty());
        assert!(e.ciphertext.is_empty());
    }
}

#[test]
fn truncation_applies_to_zero_threshold() {
    let c = cfg(0, false, false);
    let mut tx = CompactTx {
        outputs: vec![],
        actions: vec![entry(9)],
    };
    redact_tx(&c, &mut tx);
    assert_eq!(tx.actions.len(), 1);
    assert!(tx.actions[0].epk.is_empty());
    assert!(tx.actions[0].ciphertext.is_empty());
}

#[test]
fn sapling_exclusion_empties_pool() {
    let c = cfg(100, true, false);
    let mut tx = CompactTx {
        outputs: vec![entry(1), entry(2)],
        actions: vec![entry(3)],
    };
    redact_tx(&c, &mut tx);
    assert!(tx.outputs.is_empty());
    assert_eq!(tx.actions.len(), 1);
    assert!(entries_equal(&tx.actions[0], &entry(3)));
}

#[test]
fn orchard_exclusion_empties_pool() {
    let c = cfg(100, false, true);
    let mut tx = CompactTx {
        outputs: vec![entry(1)],
        actions: vec![entry(3), entry(4)],
    };
    redact_tx(&c, &mut tx);
    assert!(tx.actions.is_empty());
    assert_eq!(tx.outputs.len(), 1);
    assert!(entries_equal(&tx.outputs[0], &entry(1)));
}

#[test]
fn redaction_is_idempotent() {
    let configs = [
        cfg(0, false, false),
        cfg(2, false, false),
        cfg(2, true, false),
        cfg(2, false, true),
        cfg(2, true, true),
        cfg(100, true, true),
    ];
    for c in configs.iter() {
        let mut once = CompactTx {
            outputs: vec![entry(1), entry(2), entry(3)],
            actions: vec![entry(4)],
        };
        redact_tx(c, &mut once);
        let mut twice = CompactTx {
            outputs: once.outputs.iter().map(|e| ShieldedEntry {
                epk: e.epk.clone(),
                ciphertext: e.ciphertext.clone(),
            }).collect(),
            actions: once.actions.iter().map(|e| ShieldedEntry {
                epk: e.epk.clone(),
                ciphertext: e.ciphertext.clone(),
            }).collect(),
        };
        redact_tx(c, &mut twice);
        assert!(txs_equal(&once, &twice));
    }
}

#[test]
fn scenario_threshold_with_orchard_exclusion() {
    // threshold 2, Sapling kept, Orchard excluded; one transaction with
    // three Sapling entries carrying payloads and one Orchard entry.
    let c = cfg(2, false, true);
    let mut block = CompactBlock {
        height: 1_500_000,
        hash: vec![0xab; 32],
        vtx: vec![CompactTx {
            outputs: vec![entry(1), entry(2), entry(3)],
            actions: vec![entry(4)],
        }],
    };
    redact_block(&c, &mut block);
    assert_eq!(block.height, 1_500_000);
    assert_eq!(block.hash, vec![0xab; 32]);
    assert_eq!(block.vtx.len(), 1);
    let tx = &block.vtx[0];
    assert_eq!(tx.outputs.len(), 3);
    for e in tx.outputs.iter() {
        assert!(e.epk.is_empty());
        assert!(e.ciphertext.is_empty());
    }
    assert!(tx.actions.is_empty());
}

#[test]
fn block_redaction_keeps_transaction_count_and_order() {
    let c = cfg(1, false, false);
    let mut block = CompactBlock {
        height: 7,
        hash: vec![1, 2, 3],
        vtx: vec![
            CompactTx { outputs: vec![entry(1)], actions: vec![] },
            CompactTx { outputs: vec![], actions: vec![entry(2), entry(3)] },
            CompactTx { outputs: vec![entry(4), entry(5)], actions: vec![entry(6)] },
        ],
    };
    redact_block(&c, &mut block);
    assert_eq!(block.vtx.len(), 3);
    // first and third reach the threshold, the second does not
    assert!(block.vtx[0].outputs[0].epk.is_empty());
    assert!(entries_equal(&block.vtx[1].actions[0], &entry(2)));
    assert!(entries_equal(&block.vtx[1].actions[1], &entry(3)));
    assert!(block.vtx[2].outputs[1].ciphertext.is_empty());
    assert!(block.vtx[2].actions[0].ciphertext.is_empty());
}
