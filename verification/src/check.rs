//! Checks on the environment that the protected application runs in.
use vstd::prelude::*;
use crate::text::{contains_seq, contains_text, same_text};

verus! {

/// Why the virtual machine's options are refused.
#[derive(Clone, Copy, Debug, PartialEq, Eq, Structural)]
pub enum VmParamError {
    /// The option at this position loads an agent.
    IllegalParam(usize),
    /// No option switches the attach mechanism off.
    AttachNotDisabled,
}

/// The option loads an agent: it holds `-agentpath`, `-agentlib` or
/// `-javaagent`.
pub open spec fn is_illegal_param(option: Seq<char>) -> bool {
    contains_seq(option, "-agentpath"@) || contains_seq(option, "-agentlib"@) || contains_seq(
        option,
        "-javaagent"@,
    )
}

/// The option that switches the attach mechanism off.
pub open spec fn disable_attach() -> Seq<char> {
    "-XX:+DisableAttachMechanism"@
}

/// Does the option load an agent?
pub fn loads_agent(option: &str) -> (b: bool)
    ensures
        b == is_illegal_param(option@),
{
    contains_text(option, "-agentpath") || contains_text(option, "-agentlib") || contains_text(
        option,
        "-javaagent",
    )
}

/// Checks the options that the virtual machine was started with: none may
/// load an agent, and one must switch the attach mechanism off. The first
/// option that loads an agent is reported by its position, before a
/// missing switch is.
pub fn vm_param_check(options: &[String]) -> (r: Result<(), VmParamError>)
    ensures
        match r {
            Ok(()) => {
                &&& forall|i: int| 0 <= i < options@.len() ==> !is_illegal_param(options@[i]@)
                &&& exists|i: int| 0 <= i < options@.len() && options@[i]@ == disable_attach()
            },
            Err(VmParamError::IllegalParam(at)) => {
                &&& at < options@.len()
                &&& is_illegal_param(options@[at as int]@)
                &&& forall|i: int| 0 <= i < at ==> !is_illegal_param(options@[i]@)
            },
            Err(VmParamError::AttachNotDisabled) => {
                &&& forall|i: int| 0 <= i < options@.len() ==> !is_illegal_param(options@[i]@)
                &&& forall|i: int| 0 <= i < options@.len() ==> options@[i]@ != disable_attach()
            },
        },
{
    let mut disabled = false;
    let ghost mut witness: int = 0;
    let mut i: usize = 0;
    while i < options.len()
        invariant
            i <= options.len(),
            forall|j: int| 0 <= j < i ==> !is_illegal_param(options@[j]@),
            disabled ==> 0 <= witness < i && options@[witness]@ == disable_attach(),
            !disabled ==> forall|j: int| 0 <= j < i ==> options@[j]@ != disable_attach(),
        decreases options.len() - i,
    {
        let option = options[i].as_str();
        if loads_agent(option) {
            return Err(VmParamError::IllegalParam(i));
        }
        if same_text(option, "-XX:+DisableAttachMechanism") {
            disabled = true;
            proof {
                witness = i as int;
            }
        }
        i += 1;
    }
    if disabled {
        Ok(())
    } else {
        Err(VmParamError::AttachNotDisabled)
    }
}

/// The check of the runtime's files under `java_home`. No file is
/// examined: every home passes.
pub fn md5_check(java_home: &str) -> (ok: bool)
    ensures
        ok,
{
    true
}

} // verus!
