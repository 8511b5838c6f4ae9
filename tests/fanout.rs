use camrec::{find_branch_pad, unlink_tee_branch, DetachOp, PadDirection, PadInfo};

fn feeding(b: u64) -> PadInfo {
    PadInfo { direction: PadDirection::Src, linked: true, peer_parent: Some(b) }
}

#[test]
fn finds_output_by_peer_parent() {
    let pads = vec![
        PadInfo { direction: PadDirection::Sink, linked: true, peer_parent: Some(7) },
        PadInfo { direction: PadDirection::Src, linked: false, peer_parent: Some(7) },
        feeding(3),
        feeding(7),
        feeding(9),
    ];
    assert_eq!(find_branch_pad(&pads, 7), Some(3));
    assert_eq!(find_branch_pad(&pads, 9), Some(4));
    assert_eq!(find_branch_pad(&pads, 4), None);
    assert_eq!(find_branch_pad(&Vec::new(), 4), None);
}

#[test]
fn detach_unlinks_only_its_branch() {
    let pads = vec![feeding(10), feeding(11), feeding(12), feeding(13)];
    let ops = unlink_tee_branch(&pads, 12);
    assert_eq!(
        ops,
        vec![
            DetachOp::StopBranch,
            DetachOp::UnlinkOutput(2),
            DetachOp::ReleaseOutput(2),
            DetachOp::RemoveBranch,
            DetachOp::NotifyComplete,
        ]
    );
    let mut rest = pads.clone();
    rest.remove(2);
    for b in [10, 11, 13] {
        assert!(find_branch_pad(&rest, b).is_some());
    }
    assert_eq!(find_branch_pad(&rest, 12), None);
}

#[test]
fn detach_with_nothing_to_unlink_still_completes() {
    let ops = unlink_tee_branch(&vec![feeding(1)], 2);
    assert_eq!(ops, vec![DetachOp::StopBranch, DetachOp::RemoveBranch, DetachOp::NotifyComplete]);
    let ops = unlink_tee_branch(&Vec::new(), 2);
    assert_eq!(ops.last(), Some(&DetachOp::NotifyComplete));
    assert_eq!(ops.iter().filter(|o| **o == DetachOp::NotifyComplete).count(), 1);
}

#[test]
fn attach_then_detach_restores_free_outputs() {
    let before = vec![feeding(1), PadInfo { direction: PadDirection::Src, linked: false, peer_parent: None }];
    let mut pads = before.clone();
    pads.push(feeding(5));
    let ops = unlink_tee_branch(&pads, 5);
    assert!(ops.contains(&DetachOp::ReleaseOutput(2)));
    pads.remove(2);
    assert_eq!(pads, before);
}
