//! The git post-commit hook that triggers a deployment.
use vstd::prelude::*;

verus! {

/// The hook's script: a shell script that runs `agentor run`.
pub open spec fn hook_script_spec() -> Seq<char> {
    "#!/bin/sh\n# Agentor post-commit hook\nagentor run\n"@
}

/// The content of the post-commit hook.
pub fn generate_hook_script() -> (r: String)
    ensures
        r@ == hook_script_spec(),
{
    String::from_str("#!/bin/sh\n# Agentor post-commit hook\nagentor run\n")
}

} // verus!
