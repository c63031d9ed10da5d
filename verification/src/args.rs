//! The settings that the service is started with.

use vstd::prelude::*;

verus! {

/// The settings of the service.
#[derive(Clone, Debug)]
pub struct Args {
    /// Hostname to bind to
    pub host: String,
    /// Port to bind to
    pub port: u16,
    /// Character limit for translation requests
    pub char_limit: usize,
    /// Maximum number of strings accepted in JSON q arrays
    pub batch_limit: usize,
    /// Model to use (passed to the backend provider)
    pub model: String,
    /// Backend host, with or without a scheme
    pub backend_host: String,
    /// API key that translation requests must bring; empty to ask for none
    pub api_key: String,
    /// API key for the backend; empty to send none
    pub backend_api_key: String,
    /// Maximum number of attempts for provider creation and translation requests
    pub retry_attempts: usize,
    /// Base delay in milliseconds for exponential backoff
    pub retry_delay: u64,
    /// Interval in seconds for periodic model availability rechecks (0 to disable)
    pub model_recheck_interval: u64,
    /// Detect languages with the model
    pub llm_detect: bool,
    /// Run the benchmark instead of the service
    pub benchmark: bool,
    /// Dataset file of the benchmark
    pub dataset: Option<String>,
    /// Leave model output uncleaned
    pub disable_cleanup: bool,
}

impl Args {
    /// The key to send to the backend, if one is set.
    pub fn backend_key(&self) -> (r: Option<&str>)
        ensures
            r is None <==> self.backend_api_key@.len() == 0,
            r matches Some(k) ==> k@ == self.backend_api_key@,
    {
        if self.backend_api_key.as_str().is_empty() {
            None
        } else {
            Some(self.backend_api_key.as_str())
        }
    }
}

} // verus!
