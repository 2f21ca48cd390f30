use vstd::prelude::*;

use crate::allocator::MasterBlock;
use crate::token::spec_encode_token;
use crate::token::encode_token;
use crate::translate::allocated_sectors;
use crate::translate::backing_offset;
use crate::translate::translate;
use crate::translate::vblock_sectors;

verus! {

/// The invalid-argument result code (negative errno).
pub const EINVAL: i32 = -22;

/// The transient "try again" result code (negative errno): the operation
/// could not currently be serviced and should be retried.
pub const EAGAIN: i32 = -11;

/// The host framework's abort sentinel (negative errno): delivered in place
/// of a fetched request, it tells the tag's task to stop permanently.
pub const UBLK_IO_RES_ABORT: i32 = -19;

/// Operation code of a read request.
pub const UBLK_IO_OP_READ: u32 = 0;

/// Operation code of a write request.
pub const UBLK_IO_OP_WRITE: u32 = 1;

/// Operation code of a flush request.
pub const UBLK_IO_OP_FLUSH: u32 = 2;

/// Total submission attempts allowed for one request under transient
/// backpressure; exhausting them surfaces the transient code to the caller.
pub const MAX_ATTEMPTS: u32 = 4;

/// A request descriptor handed over by the host framework: read-only to the
/// engine, one live descriptor per tag at a time.
#[derive(Debug, Clone, Copy, PartialEq, Eq, Structural)]
pub struct RequestDesc {
    /// Slot identifier within the queue's depth.
    pub tag: u16,
    /// Operation code in the low byte, flags above it.
    pub op_flags: u32,
    /// First vblock-relative sector of the request.
    pub start_sector: u64,
    /// Number of sectors spanned by the request.
    pub nr_sectors: u32,
}

/// A ring operation the engine asks its caller to submit against the
/// pre-registered backing file.
#[derive(Debug, Clone, Copy, PartialEq, Eq, Structural)]
pub enum RingOp {
    Flush { offset: u64, len_bytes: u64 },
    Read { offset: u64, buf_addr: u64, len_bytes: u64 },
    Write { offset: u64, buf_addr: u64, len_bytes: u64 },
}

/// What the engine asks its caller to do next.
#[derive(Debug, Clone, Copy, PartialEq, Eq, Structural)]
pub enum Action {
    /// Issue the fetch-or-commit-and-fetch command for this tag, attaching
    /// the previous request's result.
    Fetch { prev_result: i32 },
    /// Submit this ring operation tagged with this correlation token, then
    /// hand the completion result back.
    Submit { op: RingOp, token: u64 },
    /// The tag's task stops permanently; no further commands are issued.
    Stop,
}

/// Where a tag's task stands in its request loop.
#[derive(Debug, Clone, Copy, PartialEq, Eq, Structural)]
pub enum TagPhase {
    /// No operation in flight; the next event is a fetched request.
    Idle,
    /// A ring operation is in flight; `attempts` submissions have been made.
    Awaiting { op: RingOp, attempts: u32 },
    /// The host framework aborted the tag; its loop has ended.
    Stopped,
}

/// The operation code of a request descriptor: the low byte of its flags.
pub open spec fn spec_opcode(op_flags: u32) -> u32 {
    op_flags & 0xff
}

/// The engine services flush, read and write requests and nothing else.
pub open spec fn opcode_supported(op: u32) -> bool {
    op == UBLK_IO_OP_FLUSH || op == UBLK_IO_OP_READ || op == UBLK_IO_OP_WRITE
}

/// The operation code a ring operation is submitted under.
pub open spec fn spec_ring_opcode(op: RingOp) -> u32 {
    match op {
        RingOp::Flush { .. } => UBLK_IO_OP_FLUSH,
        RingOp::Read { .. } => UBLK_IO_OP_READ,
        RingOp::Write { .. } => UBLK_IO_OP_WRITE,
    }
}

/// Extract the operation code from a descriptor's flags.
pub fn opcode_of(op_flags: u32) -> (r: u32)
    ensures
        r == spec_opcode(op_flags),
{
    op_flags & 0xff
}

/// The operation code a ring operation is submitted under.
pub fn ring_opcode_of(op: &RingOp) -> (r: u32)
    ensures
        r == spec_ring_opcode(*op),
{
    match op {
        RingOp::Flush { .. } => UBLK_IO_OP_FLUSH,
        RingOp::Read { .. } => UBLK_IO_OP_READ,
        RingOp::Write { .. } => UBLK_IO_OP_WRITE,
    }
}

/// Validate a request descriptor's operation code: 0 for a supported
/// operation, the invalid-argument code for any other.
pub fn prep_io_cmd_submission(io_descriptor: &RequestDesc) -> (r: i32)
    ensures
        r == 0 <==> opcode_supported(spec_opcode(io_descriptor.op_flags)),
        r == 0 || r == EINVAL,
{
    let op = opcode_of(io_descriptor.op_flags);
    if op == UBLK_IO_OP_FLUSH || op == UBLK_IO_OP_READ || op == UBLK_IO_OP_WRITE {
        0
    } else {
        EINVAL
    }
}

/// The ring operation a request descriptor translates to, or the
/// invalid-argument code: unsupported operation codes, unknown vblocks and
/// sector ranges that leave the vblock's allocated size are all rejected
/// before any ring interaction.
pub open spec fn spec_plan(
    mb: MasterBlock,
    vblock_id: u32,
    desc: RequestDesc,
    buf_addr: u64,
) -> Result<RingOp, i32> {
    let op = spec_opcode(desc.op_flags);
    if !opcode_supported(op) {
        Err(EINVAL)
    } else if !(mb.has_vblock(vblock_id) && desc.start_sector < allocated_sectors(mb, vblock_id)
        && desc.start_sector + desc.nr_sectors <= allocated_sectors(mb, vblock_id)) {
        Err(EINVAL)
    } else {
        let offset = backing_offset(mb, vblock_id, desc.start_sector as int) as u64;
        let len_bytes = ((desc.nr_sectors as int) * (mb.spec_logical_block_size() as int)) as u64;
        if op == UBLK_IO_OP_FLUSH {
            Ok(RingOp::Flush { offset, len_bytes })
        } else if op == UBLK_IO_OP_READ {
            Ok(RingOp::Read { offset, buf_addr, len_bytes })
        } else {
            Ok(RingOp::Write { offset, buf_addr, len_bytes })
        }
    }
}

/// Resolve a fetched request against the allocator's mapping: validate the
/// operation code, bound the sector range, and compute the backing byte
/// offset through the Sector Translator.
pub fn plan_io(mb: &MasterBlock, vblock_id: u32, desc: &RequestDesc, buf_addr: u64) -> (r: Result<
    RingOp,
    i32,
>)
    requires
        mb.wf(),
    ensures
        r == spec_plan(*mb, vblock_id, *desc, buf_addr),
{
    let op = opcode_of(desc.op_flags);
    if !(op == UBLK_IO_OP_FLUSH || op == UBLK_IO_OP_READ || op == UBLK_IO_OP_WRITE) {
        return Err(EINVAL);
    }
    let cap: u64 = match vblock_sectors(mb, vblock_id) {
        None => {
            return Err(EINVAL);
        },
        Some(c) => c,
    };
    if desc.start_sector >= cap {
        return Err(EINVAL);
    }
    if (desc.nr_sectors as u64) > cap - desc.start_sector {
        return Err(EINVAL);
    }
    let offset: u64 = match translate(mb, vblock_id, desc.start_sector) {
        Ok(o) => o,
        Err(_) => {
            proof {
                assert(false);
            }
            return Err(EINVAL);
        },
    };
    let lbs = mb.logical_block_size();
    proof {
        crate::allocator::lemma_entry_for_wf(*mb, vblock_id);
        lemma_len_bound(
            desc.nr_sectors as int,
            mb.entry_for(vblock_id).meta.allocated as int,
            mb.spec_size() as int,
            mb.spec_blocks_per_cluster() as int,
            lbs as int,
        );
    }
    let len_bytes: u64 = (desc.nr_sectors as u64) * lbs;
    if op == UBLK_IO_OP_FLUSH {
        Ok(RingOp::Flush { offset, len_bytes })
    } else if op == UBLK_IO_OP_READ {
        Ok(RingOp::Read { offset, buf_addr, len_bytes })
    } else {
        Ok(RingOp::Write { offset, buf_addr, len_bytes })
    }
}

/// The per-tag Dispatch Engine: an explicit state machine driving one tag's
/// request loop. The caller owns the suspension points — it performs each
/// returned [`Action`] (issue the fetch command, submit the ring operation)
/// and hands the outcome back through `on_request` or `on_completion`. At
/// most one ring operation is in flight per tag at a time.
#[derive(Debug, Clone, Copy, PartialEq, Eq, Structural)]
pub struct TagEngine {
    /// The tag this engine serves.
    pub tag: u16,
    /// Where this tag's task stands.
    pub phase: TagPhase,
}

/// The step the engine takes on a ring completion: any result other than
/// the transient code is committed as it stands; the transient code causes
/// a resubmission of the same operation under a fresh token, until the
/// attempt budget is spent, at which point the transient code itself is
/// committed.
pub open spec fn spec_completion_step(ph: TagPhase, tag: u16, res: i32) -> (TagPhase, Action) {
    match ph {
        TagPhase::Awaiting { op, attempts } => {
            if res != EAGAIN {
                (TagPhase::Idle, Action::Fetch { prev_result: res })
            } else if attempts < MAX_ATTEMPTS {
                (
                    TagPhase::Awaiting { op, attempts: (attempts + 1) as u32 },
                    Action::Submit {
                        op,
                        token: spec_encode_token(tag, spec_ring_opcode(op), (attempts + 1) as u32),
                    },
                )
            } else {
                (TagPhase::Idle, Action::Fetch { prev_result: EAGAIN })
            }
        },
        _ => (ph, Action::Stop),
    }
}

impl TagEngine {
    /// The attempt counter never leaves `1 ..= MAX_ATTEMPTS` while an
    /// operation is in flight.
    pub open spec fn wf(self) -> bool {
        self.phase matches TagPhase::Awaiting { attempts, .. } ==> 1 <= attempts
            <= MAX_ATTEMPTS
    }

    /// A fresh engine for one tag, idle and ready to fetch.
    pub fn new(tag: u16) -> (r: TagEngine)
        ensures
            r.tag == tag,
            r.phase == TagPhase::Idle,
            r.wf(),
    {
        TagEngine { tag, phase: TagPhase::Idle }
    }

    /// Feed the engine the outcome of the fetch command for its tag: the
    /// host framework's result code and, unless it is the abort sentinel,
    /// the fetched request descriptor. The abort sentinel stops the tag's
    /// task permanently. A valid request is resolved through the Sector
    /// Translator and handed back as a submission; a rejected one is
    /// committed immediately with the invalid-argument result, with no ring
    /// interaction.
    pub fn on_request(
        &mut self,
        mb: &MasterBlock,
        vblock_id: u32,
        cmd_res: i32,
        desc: &RequestDesc,
        buf_addr: u64,
    ) -> (r: Action)
        requires
            old(self).phase == TagPhase::Idle,
            old(self).wf(),
            mb.wf(),
            desc.tag == old(self).tag,
        ensures
            final(self).tag == old(self).tag,
            final(self).wf(),
            cmd_res == UBLK_IO_RES_ABORT ==> final(self).phase == TagPhase::Stopped && r
                == Action::Stop,
            cmd_res != UBLK_IO_RES_ABORT ==> match spec_plan(*mb, vblock_id, *desc, buf_addr) {
                Err(e) => final(self).phase == TagPhase::Idle && r == (Action::Fetch {
                    prev_result: e,
                }),
                Ok(op) => final(self).phase == (TagPhase::Awaiting { op, attempts: 1 }) && r
                    == (Action::Submit {
                    op,
                    token: spec_encode_token(old(self).tag, spec_ring_opcode(op), 1),
                }),
            },
    {
        if cmd_res == UBLK_IO_RES_ABORT {
            self.phase = TagPhase::Stopped;
            return Action::Stop;
        }
        let res = prep_io_cmd_submission(desc);
        if res != 0 {
            return Action::Fetch { prev_result: res };
        }
        match plan_io(mb, vblock_id, desc, buf_addr) {
            Err(e) => Action::Fetch { prev_result: e },
            Ok(op) => {
                let token = encode_token(self.tag, ring_opcode_of(&op), 1);
                self.phase = TagPhase::Awaiting { op, attempts: 1 };
                Action::Submit { op, token }
            },
        }
    }

    /// Feed the engine the signed result of the ring completion matching
    /// its in-flight operation.
    pub fn on_completion(&mut self, res: i32) -> (r: Action)
        requires
            old(self).phase is Awaiting,
            old(self).wf(),
        ensures
            final(self).tag == old(self).tag,
            final(self).wf(),
            (final(self).phase, r) == spec_completion_step(old(self).phase, old(self).tag, res),
    {
        match self.phase {
            TagPhase::Awaiting { op, attempts } => {
                if res != EAGAIN {
                    self.phase = TagPhase::Idle;
                    Action::Fetch { prev_result: res }
                } else if attempts < MAX_ATTEMPTS {
                    let token = encode_token(self.tag, ring_opcode_of(&op), attempts + 1);
                    self.phase = TagPhase::Awaiting { op, attempts: attempts + 1 };
                    Action::Submit { op, token }
                } else {
                    self.phase = TagPhase::Idle;
                    Action::Fetch { prev_result: EAGAIN }
                }
            },
            _ => {
                proof {
                    assert(false);
                }
                Action::Stop
            },
        }
    }
}

/// How many further submissions the engine makes, starting from this phase,
/// when the ring answers every attempt with the transient code.
pub open spec fn transient_resubmissions(ph: TagPhase, tag: u16) -> int
    decreases (match ph {
        TagPhase::Awaiting { attempts, .. } => if attempts <= MAX_ATTEMPTS {
            (MAX_ATTEMPTS - attempts) as int
        } else {
            0int
        },
        _ => 0int,
    }),
{
    match ph {
        TagPhase::Awaiting { op, attempts } => {
            if attempts < MAX_ATTEMPTS {
                match spec_completion_step(ph, tag, EAGAIN) {
                    (ph2, Action::Submit { .. }) => 1 + transient_resubmissions(ph2, tag),
                    _ => 0int,
                }
            } else {
                0int
            }
        },
        _ => 0int,
    }
}

/// Law (bounded retry): a request whose every submission attempt completes
/// with the transient code is submitted exactly `MAX_ATTEMPTS` times in all
/// — the initial submission plus the engine's resubmissions — after which
/// the engine commits the transient code as the final result and returns to
/// fetching, so the tag's task is not stuck.
pub proof fn lemma_bounded_retry(op: RingOp, tag: u16)
    ensures
        1 + transient_resubmissions(TagPhase::Awaiting { op, attempts: 1 }, tag)
            == MAX_ATTEMPTS,
        forall|a: u32|
            1 <= a < MAX_ATTEMPTS ==> #[trigger] spec_completion_step(
                TagPhase::Awaiting { op, attempts: a },
                tag,
                EAGAIN,
            ) == (
                TagPhase::Awaiting { op, attempts: (a + 1) as u32 },
                Action::Submit {
                    op,
                    token: spec_encode_token(tag, spec_ring_opcode(op), (a + 1) as u32),
                },
            ),
        spec_completion_step(TagPhase::Awaiting { op, attempts: MAX_ATTEMPTS }, tag, EAGAIN)
            == (TagPhase::Idle, Action::Fetch { prev_result: EAGAIN }),
{
    assert(transient_resubmissions(TagPhase::Awaiting { op, attempts: 4 }, tag) == 0);
    assert(transient_resubmissions(TagPhase::Awaiting { op, attempts: 3 }, tag) == 1);
    assert(transient_resubmissions(TagPhase::Awaiting { op, attempts: 2 }, tag) == 2);
    assert(transient_resubmissions(TagPhase::Awaiting { op, attempts: 1 }, tag) == 3);
}

/// Law (opcode validation): a request descriptor whose operation code is
/// not flush, read or write is planned to the invalid-argument result, so
/// the engine commits it with zero ring submissions.
pub proof fn lemma_opcode_validation(
    mb: MasterBlock,
    vblock_id: u32,
    desc: RequestDesc,
    buf_addr: u64,
)
    requires
        !opcode_supported(spec_opcode(desc.op_flags)),
    ensures
        spec_plan(mb, vblock_id, desc, buf_addr) == Err::<RingOp, i32>(EINVAL),
{
}

/// A sector count bounded by a well-placed vblock's capacity gives a byte
/// length that fits in the device's byte space, hence in `u64`.
proof fn lemma_len_bound(nr: int, clusters: int, size: int, bpc: int, lbs: int)
    requires
        0 <= nr,
        nr <= clusters * bpc,
        0 <= clusters <= size,
        1 <= bpc,
        1 <= lbs,
        size * bpc * lbs <= u64::MAX,
    ensures
        nr * lbs <= size * bpc * lbs,
{
    assert(nr * lbs <= size * bpc * lbs) by (nonlinear_arith)
        requires
            0 <= nr,
            nr <= clusters * bpc,
            0 <= clusters <= size,
            1 <= bpc,
            1 <= lbs,
    ;
}

} // verus!
