//! The deployment step's own logic: which deployment methods apply.
use vstd::prelude::*;

verus! {

/// The deployment methods that a configuration calls for.
#[derive(Debug, Clone, Copy, PartialEq, Eq, Structural)]
pub struct DeployPlan {
    /// Copy the artifacts into the target directory.
    pub copy_files: bool,
    /// Run the deployment command.
    pub run_command: bool,
}

/// The deployment methods that apply: files are copied when both a target
/// directory and artifacts are given, and the command runs when it is
/// given. When neither applies there is nothing to deploy.
pub fn deploy_plan(command: &str, target_dir: &str, artifacts: &Vec<String>) -> (r: DeployPlan)
    ensures
        r.copy_files == (target_dir@.len() > 0 && artifacts@.len() > 0),
        r.run_command == (command@.len() > 0),
{
    DeployPlan {
        copy_files: !target_dir.is_empty() && artifacts.len() > 0,
        run_command: !command.is_empty(),
    }
}

} // verus!
