//! Conversion pipeline for turning one EPUB document into a Markdown document.
//!
//! The pipeline delegates the EPUB-to-HTML stage to an external conversion
//! tool run as a subprocess and performs the HTML-to-Markdown stage through
//! the `html2md` crate.  The library holds the verified logic: path
//! resolution, the error taxonomy, the decision rules for each subprocess
//! outcome, and the state machine that sequences the steps.  A thin driver
//! outside the library performs the actual process and file-system work and
//! feeds each outcome back as an event.

pub mod errors;
pub mod laws;
pub mod paths;
pub mod pipeline;
pub mod text;
pub mod transform;
