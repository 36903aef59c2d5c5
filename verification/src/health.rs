//! The provider's health: it is healthy exactly when its Gemini binary can be
//! found.
use vstd::prelude::*;
use crate::config::GeminiConfig;

verus! {

#[derive(Debug, PartialEq, Eq, Structural)]
pub enum HealthStatus {
    Healthy,
    Unhealthy,
}

/// The answer to a health check.
pub struct HealthCheckResult {
    pub status: HealthStatus,
    pub uptime_ms: Option<u64>,
    pub memory_usage_bytes: Option<u64>,
    pub last_error: Option<String>,
}

/// The error an unhealthy provider reports for the binary `bin`.
pub open spec fn missing_binary_message(bin: Seq<char>) -> Seq<char> {
    "gemini binary '"@ + bin + "' not found in PATH"@
}

impl GeminiConfig {
    /// The health of the provider, given where the configured binary was found
    /// on the search path (`None` where it was not): healthy with no error when
    /// it was found, unhealthy with `missing_binary_message` otherwise; neither
    /// uptime nor memory usage is reported.
    pub fn health(&self, found_at: Option<std::path::PathBuf>) -> (result: HealthCheckResult)
        ensures
            result.uptime_ms is None,
            result.memory_usage_bytes is None,
            found_at is Some ==> result.status == HealthStatus::Healthy && result.last_error is None,
            found_at is None ==> result.status == HealthStatus::Unhealthy && match result.last_error {
                Some(message) => message@ == missing_binary_message(self.gemini_bin@) && message@
                    == "gemini binary '"@ + self.gemini_bin@ + "' not found in PATH"@,
                None => false,
            },
    {
        match found_at {
            Some(_) => HealthCheckResult {
                status: HealthStatus::Healthy,
                uptime_ms: None,
                memory_usage_bytes: None,
                last_error: None,
            },
            None => {
                let message = String::from_str("gemini binary '").concat(
                    self.gemini_bin.as_str(),
                ).concat("' not found in PATH");
                HealthCheckResult {
                    status: HealthStatus::Unhealthy,
                    uptime_ms: None,
                    memory_usage_bytes: None,
                    last_error: Some(message),
                }
            },
        }
    }
}

/// Whatever the binary is called, the error of an unhealthy provider says that
/// it was not found, and names it.
pub proof fn lemma_missing_binary_message(bin: Seq<char>)
    ensures
        missing_binary_message(bin).subrange(bin.len() + 17int, bin.len() + 26int) == "not found"@,
        missing_binary_message(bin).subrange(15, bin.len() + 15int) == bin,
{
    reveal_strlit("gemini binary '");
    reveal_strlit("' not found in PATH");
    reveal_strlit("not found");
    assert(missing_binary_message(bin).subrange(bin.len() + 17int, bin.len() + 26int) =~= "not found"@);
    assert(missing_binary_message(bin).subrange(15, bin.len() + 15int) =~= bin);
}

} // verus!
