//! Core of a user-space virtual block device: probing a target's I/O
//! layout, carving one physical device into independently addressable
//! virtual block devices (vblocks) at cluster granularity, translating
//! vblock-relative sectors to backing byte offsets, and dispatching tagged
//! I/O requests with bounded retry under transient backpressure. The
//! surrounding process performs the actual system calls and ring
//! submissions; this crate decides, and its decisions carry proofs.

use vstd::prelude::*;

pub mod allocator;
pub mod dispatch;
pub mod layout;
pub mod token;
pub mod translate;

pub use allocator::AllocationError;
pub use allocator::MasterBlock;
pub use allocator::VBlockEntry;
pub use allocator::VBlockMeta;
pub use dispatch::opcode_of;
pub use dispatch::TagEngine;
pub use dispatch::plan_io;
pub use dispatch::prep_io_cmd_submission;
pub use dispatch::ring_opcode_of;
pub use dispatch::Action;
pub use dispatch::RequestDesc;
pub use dispatch::RingOp;
pub use dispatch::TagPhase;
pub use dispatch::EAGAIN;
pub use dispatch::EINVAL;
pub use dispatch::MAX_ATTEMPTS;
pub use dispatch::UBLK_IO_OP_FLUSH;
pub use dispatch::UBLK_IO_OP_READ;
pub use dispatch::UBLK_IO_OP_WRITE;
pub use dispatch::UBLK_IO_RES_ABORT;
pub use layout::Layout;
pub use layout::LayoutError;
pub use token::encode_token;
pub use token::token_attempt;
pub use token::token_is_target;
pub use token::token_op;
pub use token::token_tag;
pub use token::TOKEN_TARGET_BIT;
pub use translate::translate;
pub use translate::vblock_sectors;
pub use translate::TranslateError;

verus! {

} // verus!
