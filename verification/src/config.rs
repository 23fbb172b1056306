//! Configuration values for the tool.

use vstd::prelude::*;
use vstd::string::StringExecFns;

verus! {

/// Configuration for the tool.
#[derive(Debug, Clone)]
pub struct Config {
    /// The cloud project id
    pub project_id: String,
    /// The region for the inference services
    pub region: String,
    /// The model to use for testing
    pub model: String,
    /// Whether to enable verbose output
    pub verbose: bool,
}

impl Default for Config {
    fn default() -> (c: Self)
        ensures
            c.project_id@ == Seq::<char>::empty(),
            c.region@ == "us-central1"@,
            c.model@ == "gemini-pro"@,
            !c.verbose,
    {
        Config {
            project_id: String::new(),
            region: "us-central1".to_owned(),
            model: "gemini-pro".to_owned(),
            verbose: false,
        }
    }
}

/// The environment variable naming the cloud project id.
pub fn project_id_var() -> (r: &'static str)
    ensures
        r@ == "VERTEX_AI_PROJECT_ID"@,
{
    "VERTEX_AI_PROJECT_ID"
}

/// The environment variable naming the credentials file.
pub fn credentials_var() -> (r: &'static str)
    ensures
        r@ == "GOOGLE_APPLICATION_CREDENTIALS"@,
{
    "GOOGLE_APPLICATION_CREDENTIALS"
}

/// Error types for configuration.
#[derive(Debug, Clone)]
pub enum ConfigError {
    /// An environment variable is missing
    MissingEnvVar(String),
    /// The configuration is invalid
    InvalidConfig(String),
}

impl ConfigError {
    /// The error's message text.
    pub fn message(&self) -> (r: String)
        ensures
            self matches ConfigError::MissingEnvVar(v) ==> r@ == "Missing environment variable: "@
                + v@,
            self matches ConfigError::InvalidConfig(v) ==> r@ == "Invalid configuration: "@ + v@,
    {
        match self {
            ConfigError::MissingEnvVar(v) => {
                let mut s = "Missing environment variable: ".to_owned();
                s.append(v.as_str());
                s
            },
            ConfigError::InvalidConfig(v) => {
                let mut s = "Invalid configuration: ".to_owned();
                s.append(v.as_str());
                s
            },
        }
    }
}

} // verus!
