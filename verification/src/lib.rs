//! Synthesis of legacy-encoded text samples and scoring of encoding detectors.
//!
//! A sample of a corpus is normalized for its target encoding (`normalize`),
//! written in it (`table`, `transcode`) and handed to the detectors
//! (`detect`); each detector is credited where the bytes read under its guess
//! give the same text as under the true encoding (`evaluate`, `score`). The
//! registry of languages and encodings (`taxonomy`) is expanded into tasks
//! whose score cards are merged by exact addition (`schedule`).
//!
//! The encoders, decoders and detectors themselves are those of other
//! crates. Each call into them stands in a small function whose contract is
//! stated and not proved; everything around those calls is proved against
//! those contracts.

pub mod cli;
pub mod codec;
pub mod corpus;
pub mod detect;
pub mod dumps;
pub mod encoding;
pub mod evaluate;
pub mod normalize;
pub mod report;
pub mod schedule;
pub mod score;
pub mod table;
pub mod taxonomy;
pub mod text;
pub mod transcode;
