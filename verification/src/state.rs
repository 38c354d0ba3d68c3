//! Orchestrating state: the status message, the last produced output path,
//! and the single in-flight-job flag, updated only in response to
//! job-lifecycle events. At most one job is in flight; paths offered while
//! a job runs are dropped without any state change.

use vstd::prelude::*;
use vstd::string::StringExecFns;
use crate::paths::is_accepted_path;
use crate::paths::spec_is_accepted;

verus! {

/// A job-lifecycle event fed by the surrounding event loop: a path was
/// accepted for processing, or a finished job reported its outcome.
pub enum Event {
    FileDropped(String),
    ImageProcessed(Result<String, String>),
}

/// The orchestrator's whole mutable state.
pub struct Processor {
    /// The status line currently shown.
    pub message: String,
    /// The output path of the last successfully processed image.
    pub processed_image: Option<String>,
    /// Whether a job is in flight.
    pub is_processing: bool,
}

impl Processor {
    /// The initial state: an invitation message, no output, no job running.
    pub fn new() -> (p: Processor)
        ensures
            p.message@ == "Drag an image here"@,
            p.processed_image is None,
            !p.is_processing,
    {
        Processor {
            message: String::from_str("Drag an image here"),
            processed_image: None,
            is_processing: false,
        }
    }

    /// The extension and concurrency gate for an offered path. While a job
    /// is in flight every offer is dropped silently: no job starts and no
    /// state changes. Otherwise an accepted extension hands the path back
    /// as the job to start, and a rejected one only sets the error
    /// message.
    pub fn handle_file_drop(&mut self, path: String) -> (job: Option<String>)
        ensures
            old(self).is_processing ==> *final(self) == *old(self) && job is None,
            !old(self).is_processing && spec_is_accepted(path@) ==> *final(self) == *old(self)
                && job == Some(path),
            !old(self).is_processing && !spec_is_accepted(path@) ==> job is None
                && final(self).message@ == "Error: only images are supported"@
                && final(self).processed_image == old(self).processed_image
                && final(self).is_processing == old(self).is_processing,
    {
        if !self.is_processing {
            if is_accepted_path(path.as_str()) {
                return Some(path);
            }
            self.message = String::from_str("Error: only images are supported");
        }
        None
    }

    /// Marks the accepted job as started.
    pub fn begin_job(&mut self)
        ensures
            final(self).is_processing,
            final(self).processed_image is None,
            final(self).message@ == "Processing..."@,
    {
        self.is_processing = true;
        self.processed_image = None;
        self.message = String::from_str("Processing...");
    }

    /// Records a finished job's outcome: on success the output path and a
    /// success message, on failure an error message prefixed `Error: `.
    pub fn finish_job(&mut self, outcome: Result<String, String>)
        ensures
            !final(self).is_processing,
            outcome matches Ok(p) ==> final(self).message@ == "Image processed and saved"@
                && final(self).processed_image == Some(p),
            outcome matches Err(e) ==> final(self).message@ == "Error: "@ + e@
                && final(self).processed_image == old(self).processed_image,
    {
        self.is_processing = false;
        match outcome {
            Ok(p) => {
                self.message = String::from_str("Image processed and saved");
                self.processed_image = Some(p);
            },
            Err(e) => {
                self.message = String::from_str("Error: ").concat(e.as_str());
            },
        }
    }

    /// Applies one event. An accepted dropped path starts its job and is
    /// returned so the caller can run the pipeline on it; a finished job
    /// only updates the state.
    pub fn update(&mut self, event: Event) -> (job: Option<String>)
        ensures
            event matches Event::FileDropped(p) ==> final(self).is_processing
                && final(self).processed_image is None
                && final(self).message@ == "Processing..."@
                && job == Some(p),
            event matches Event::ImageProcessed(outcome) ==> {
                &&& job is None
                &&& !final(self).is_processing
                &&& (outcome matches Ok(p) ==> final(self).message@
                    == "Image processed and saved"@ && final(self).processed_image == Some(p))
                &&& (outcome matches Err(e) ==> final(self).message@ == "Error: "@ + e@
                    && final(self).processed_image == old(self).processed_image)
            },
    {
        match event {
            Event::FileDropped(path) => {
                self.begin_job();
                Some(path)
            },
            Event::ImageProcessed(outcome) => {
                self.finish_job(outcome);
                None
            },
        }
    }
}

} // verus!
