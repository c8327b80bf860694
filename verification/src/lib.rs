//! Match-replay summarizer: turns a decoded replay's heterogeneous property
//! list and optional network-frame stream into a normalized match summary.
//!
//! The pipeline is total: given any decoded replay, even one with an empty
//! property list and no frame stream, it produces a complete summary, with
//! every missing or mistyped field degrading to its stated default. All
//! fractional scalars are carried in fixed point, in thousandths, so the
//! whole pipeline stays in integer arithmetic.
//!
//! `props` holds the tagged property list and its defensive accessors;
//! `helpers` the overtime and shooting-percentage metrics; `cars` the static
//! car catalogue; `resolver` the cross-stream car-identity resolver;
//! `parser` the player extraction, MVP selection, team grouping and summary
//! assembly; `wrapper` the dotted-path accessor and the basic response;
//! `basic` the reduced per-player summary; `numfmt` the decimal renderer;
//! `stamp` the generated identifier and timestamp.

pub mod ballchasing;
pub mod basic;
pub mod cars;
pub mod common;
pub mod frames;
pub mod helpers;
pub mod numfmt;
pub mod parser;
pub mod players;
pub mod properties;
pub mod props;
pub mod replay;
pub mod resolver;
pub mod stamp;
pub mod wrapper;
