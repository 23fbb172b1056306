//! A rate-limited, concurrency-bounded request-dispatch library.
//!
//! A bounded pool of workers shares one externally-imposed rate budget (a
//! token bucket that refills on a fixed schedule) and a cap on simultaneous
//! in-flight calls (a concurrency gate). The request queue composes the two
//! into an admission/execution protocol with transparent retry of rate-limit
//! rejections, and the batch driver feeds units of work through it while an
//! append-only ledger records each unit's terminal outcome.
//!
//! All timing is explicit: functions that depend on the clock take the
//! current time in nanoseconds as an argument, and sleeping is modelled by
//! advancing that simulated clock, so the whole protocol is deterministic
//! and verified.
//!
//! Around the dispatch core stand the inference-call helpers: the
//! structured request body and its URLs, and the extraction of embedded
//! JSON from raw response text.

pub mod bucket;
pub mod config;
pub mod driver;
pub mod extract;
pub mod gate;
pub mod ledger;
pub mod queue;
pub mod textscan;
pub mod units;
pub mod vertex;

pub use bucket::TokenBucket;
pub use config::Config;
pub use config::ConfigError;
pub use driver::DriverConfig;
pub use extract::extract_json_from_raw_text;
pub use gate::ConcurrencyGate;
pub use ledger::ExtractionLedger;
pub use queue::QueueConfig;
pub use queue::RequestQueue;
pub use units::DirTree;
pub use vertex::new_pdf_extraction;
pub use vertex::ContentItem;
pub use vertex::ContentPart;
pub use vertex::GoogleSearch;
pub use vertex::InlineData;
pub use vertex::SafetySetting;
pub use vertex::SystemInstruction;
pub use vertex::SystemInstructionPart;
pub use vertex::Tool;
pub use vertex::VertexAIModel;
