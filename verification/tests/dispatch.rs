use vblock::plan_io;
use vblock::prep_io_cmd_submission;
use vblock::Action;
use vblock::MasterBlock;
use vblock::RequestDesc;
use vblock::RingOp;
use vblock::TagEngine;
use vblock::TagPhase;
use vblock::EAGAIN;
use vblock::EINVAL;
use vblock::MAX_ATTEMPTS;
use vblock::UBLK_IO_OP_FLUSH;
use vblock::UBLK_IO_OP_READ;
use vblock::UBLK_IO_OP_WRITE;
use vblock::UBLK_IO_RES_ABORT;

fn master_with_one_vblock() -> MasterBlock {
    // 1000 clusters, 1 reserved, 512-byte sectors, 8 sectors per cluster;
    // vblock 0 has 800 sectors with its extent at cluster 1 (sector 8).
    let mut mb = MasterBlock::new(1000, 1, 512, 8);
    mb.create_vblock(100).unwrap();
    mb
}

fn desc(tag: u16, op: u32, start_sector: u64, nr_sectors: u32) -> RequestDesc {
    RequestDesc {
        tag,
        op_flags: op,
        start_sector,
        nr_sectors,
    }
}

#[test]
fn opcode_validation() {
    assert_eq!(prep_io_cmd_submission(&desc(0, UBLK_IO_OP_READ, 0, 1)), 0);
    assert_eq!(prep_io_cmd_submission(&desc(0, UBLK_IO_OP_WRITE, 0, 1)), 0);
    assert_eq!(prep_io_cmd_submission(&desc(0, UBLK_IO_OP_FLUSH, 0, 1)), 0);
    // Flags above the low byte do not change the operation code.
    assert_eq!(prep_io_cmd_submission(&desc(0, UBLK_IO_OP_READ | 0x100, 0, 1)), 0);
    // Discard (3), write-same (4) and anything else are rejected.
    assert_eq!(prep_io_cmd_submission(&desc(0, 3, 0, 1)), EINVAL);
    assert_eq!(prep_io_cmd_submission(&desc(0, 4, 0, 1)), EINVAL);
    assert_eq!(prep_io_cmd_submission(&desc(0, 0xff, 0, 1)), EINVAL);
}

#[test]
fn plan_computes_ring_operations() {
    let mb = master_with_one_vblock();
    let buf = 0xdead_0000u64;
    assert_eq!(
        plan_io(&mb, 0, &desc(1, UBLK_IO_OP_READ, 5, 2), buf),
        Ok(RingOp::Read {
            offset: (8 + 5) * 512,
            buf_addr: buf,
            len_bytes: 1024,
        })
    );
    assert_eq!(
        plan_io(&mb, 0, &desc(1, UBLK_IO_OP_WRITE, 0, 8), buf),
        Ok(RingOp::Write {
            offset: 8 * 512,
            buf_addr: buf,
            len_bytes: 4096,
        })
    );
    assert_eq!(
        plan_io(&mb, 0, &desc(1, UBLK_IO_OP_FLUSH, 0, 800), buf),
        Ok(RingOp::Flush {
            offset: 8 * 512,
            len_bytes: 800 * 512,
        })
    );
}

#[test]
fn plan_rejects_bad_requests() {
    let mb = master_with_one_vblock();
    // Unsupported opcode.
    assert_eq!(plan_io(&mb, 0, &desc(1, 3, 0, 1), 0), Err(EINVAL));
    // Unknown vblock.
    assert_eq!(plan_io(&mb, 9, &desc(1, UBLK_IO_OP_READ, 0, 1), 0), Err(EINVAL));
    // Start sector out of range.
    assert_eq!(plan_io(&mb, 0, &desc(1, UBLK_IO_OP_READ, 800, 1), 0), Err(EINVAL));
    // Range runs past the allocated size.
    assert_eq!(plan_io(&mb, 0, &desc(1, UBLK_IO_OP_READ, 799, 2), 0), Err(EINVAL));
    // The largest in-range request is accepted.
    assert!(plan_io(&mb, 0, &desc(1, UBLK_IO_OP_READ, 0, 800), 0).is_ok());
}

#[test]
fn bounded_retry_exhaustion() {
    let mb = master_with_one_vblock();
    let mut eng = TagEngine::new(7);
    let d = desc(7, UBLK_IO_OP_READ, 0, 1);

    let mut submissions = 0u32;
    let first = eng.on_request(&mb, 0, 0, &d, 0x1000);
    let mut tokens = Vec::new();
    match first {
        Action::Submit { op, token } => {
            assert_eq!(
                op,
                RingOp::Read {
                    offset: 8 * 512,
                    buf_addr: 0x1000,
                    len_bytes: 512,
                }
            );
            submissions += 1;
            tokens.push(token);
        }
        other => panic!("expected a submission, got {:?}", other),
    }
    // The ring answers every attempt with the transient code.
    let final_action = loop {
        match eng.on_completion(EAGAIN) {
            Action::Submit { op, token } => {
                assert_eq!(
                    op,
                    RingOp::Read {
                        offset: 8 * 512,
                        buf_addr: 0x1000,
                        len_bytes: 512,
                    }
                );
                submissions += 1;
                tokens.push(token);
            }
            other => break other,
        }
    };
    // Exactly MAX_ATTEMPTS submissions, then the transient code is final.
    assert_eq!(submissions, MAX_ATTEMPTS);
    assert_eq!(
        final_action,
        Action::Fetch {
            prev_result: EAGAIN
        }
    );
    // Each attempt carried a fresh correlation token, marking the tag, the
    // operation and the attempt number.
    for i in 0..tokens.len() {
        for j in 0..tokens.len() {
            if i != j {
                assert_ne!(tokens[i], tokens[j]);
            }
        }
    }
    for (i, t) in tokens.iter().enumerate() {
        assert_eq!(vblock::token_tag(*t), 7);
        assert_eq!(vblock::token_op(*t), UBLK_IO_OP_READ);
        assert_eq!(vblock::token_attempt(*t), i as u32 + 1);
        assert!(vblock::token_is_target(*t));
    }
    // The task is not stuck: it fetches the next request for its tag.
    assert_eq!(eng.phase, TagPhase::Idle);
    let next = eng.on_request(&mb, 0, 0, &d, 0x1000);
    assert!(matches!(next, Action::Submit { .. }));
}

#[test]
fn success_and_hard_errors_commit_without_retry() {
    let mb = master_with_one_vblock();
    let mut eng = TagEngine::new(0);
    let d = desc(0, UBLK_IO_OP_WRITE, 4, 4);

    assert!(matches!(
        eng.on_request(&mb, 0, 0, &d, 0x2000),
        Action::Submit { .. }
    ));
    // A successful completion (bytes transferred) commits at once.
    assert_eq!(eng.on_completion(2048), Action::Fetch { prev_result: 2048 });

    // A hard error is surfaced verbatim, not retried.
    assert!(matches!(
        eng.on_request(&mb, 0, 0, &d, 0x2000),
        Action::Submit { .. }
    ));
    assert_eq!(eng.on_completion(-5), Action::Fetch { prev_result: -5 });

    // One transient completion retries, then success commits.
    assert!(matches!(
        eng.on_request(&mb, 0, 0, &d, 0x2000),
        Action::Submit { .. }
    ));
    assert!(matches!(eng.on_completion(EAGAIN), Action::Submit { .. }));
    assert_eq!(eng.on_completion(2048), Action::Fetch { prev_result: 2048 });
}

#[test]
fn invalid_opcode_commits_without_ring_interaction() {
    let mb = master_with_one_vblock();
    let mut eng = TagEngine::new(2);
    let d = desc(2, 3, 0, 1);
    // No Submit action is ever produced: the result goes straight back.
    assert_eq!(
        eng.on_request(&mb, 0, 0, &d, 0x1000),
        Action::Fetch {
            prev_result: EINVAL
        }
    );
    assert_eq!(eng.phase, TagPhase::Idle);
}

#[test]
fn out_of_range_request_commits_invalid_argument() {
    let mb = master_with_one_vblock();
    let mut eng = TagEngine::new(2);
    let d = desc(2, UBLK_IO_OP_READ, 800, 1);
    assert_eq!(
        eng.on_request(&mb, 0, 0, &d, 0x1000),
        Action::Fetch {
            prev_result: EINVAL
        }
    );
}

#[test]
fn abort_stops_the_tag_task() {
    let mb = master_with_one_vblock();
    let mut eng = TagEngine::new(5);
    let d = desc(5, UBLK_IO_OP_READ, 0, 1);
    assert_eq!(
        eng.on_request(&mb, 0, UBLK_IO_RES_ABORT, &d, 0x1000),
        Action::Stop
    );
    assert_eq!(eng.phase, TagPhase::Stopped);
}
