//! Approximate-equality comparisons for a forward-mode automatic
//! differentiation scalar: a value paired with its first derivative.
//!
//! The scalar's two components are modelled by the bit patterns of IEEE-754
//! double-precision numbers. A comparison of two such scalars is a job for
//! the underlying double-precision representation, which already owns the
//! three standard tiers of floating-point comparison (absolute difference,
//! relative difference, and ULPS distance); this library's own duty is the
//! adaptation around that work, and that duty is what it verifies: for each
//! tier, exactly which operands are handed over — the value components
//! alone, never a derivative — and which default tolerances are supplied.
//! The floating-point tier rules themselves stay with the caller, who runs
//! them on the operands this library hands out.

pub mod dual;
