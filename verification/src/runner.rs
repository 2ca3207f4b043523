//! The narrow capability the library expects from its process runner.

use vstd::prelude::*;

verus! {

/// The captured result of one external tool invocation: whether the tool
/// exited successfully, and its output and error streams as text. The
/// runner that produces these values lives outside the library; every
/// decision the library makes is a function of values of this shape.
pub struct RunOutput {
    pub success: bool,
    pub stdout: String,
    pub stderr: String,
}

} // verus!
