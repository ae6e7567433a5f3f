//! Retrieval of the certificate revocation list that belongs to the host's
//! secure processor generation, and the decisions around storing it.

mod error;
mod kds;
mod laws;
mod processor;
mod session;

pub use error::{CrlError, DetectionError, IoStep};
pub use kds::{crl_file_name, crl_url, crl_url_for};
pub use processor::ProcessorGeneration;
pub use session::{accepts, begin, step, Action, Crl, Event, Stage};
pub use laws::{
    lemma_detection_failure_fetches_nothing, lemma_done_is_final, lemma_empty_body_is_written,
    lemma_existing_dir_is_overwritten, lemma_fetch_failure_touches_no_file,
    lemma_fetches_generation_url, lemma_missing_dir_is_created_then_written,
};
