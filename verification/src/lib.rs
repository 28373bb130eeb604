//! Core logic of a small GPU demo: surface capability negotiation,
//! mesh and instance-grid construction, and the frame-loop state machine
//! that swaps between two render strategies.
//!
//! Everything here works on plain values (enumerations, integers, lists),
//! so the selection rules and the loop's decisions are verified without a
//! graphics device. The unverified shell around this library converts the
//! backend's capability reports into these plain values, performs the GPU
//! calls, and feeds window events back in.

pub mod caps;
pub mod mesh;
pub mod state;
