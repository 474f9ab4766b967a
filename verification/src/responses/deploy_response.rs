//! The result of a deployment.
use vstd::prelude::*;

verus! {

/// The options that a deployment ran with.
#[derive(Debug, Clone)]
pub struct DeployOptions {
    pub allow_missing_files: bool,
    pub auto_update_package: bool,
    pub check_only: bool,
    pub ignore_warnings: bool,
    pub purge_on_delete: bool,
    pub rollback_on_error: bool,
    pub run_tests: Option<Vec<String>>,
    pub single_package: bool,
    pub test_level: String,
}

/// The result of the tests of a deployment.
#[derive(Debug, Clone)]
pub struct DeploymentRunTestResult {
}

/// The components of a deployment, by outcome.
#[derive(Debug, Clone)]
pub struct DeploymentResultDetails {
    pub component_failures: Option<Vec<String>>,
    pub component_successes: Option<Vec<String>>,
    pub run_test_result: Option<DeploymentRunTestResult>,
}

/// The state of a deployment.
#[derive(Debug, Clone)]
pub struct DeployResult {
    pub id: String,
    pub success: bool,
    pub check_only: bool,
    pub ignore_warnings: bool,
    pub rollback_on_error: bool,
    pub status: String,
    pub run_tests_enabled: bool,
    pub done: bool,
    pub details: Option<DeploymentResultDetails>,
    pub error_message: Option<String>,
    pub error_status_code: Option<String>,
    pub status_detail: Option<String>,
    pub created_date: String,
    pub completed_date: Option<String>,
    pub start_date: String,
    pub deploy_options: Option<DeployOptions>,
}

} // verus!
