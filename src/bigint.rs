//! Detecting the runtime's numeric bigint support: which probe to run next,
//! and what the probes' outcomes mean.
use vstd::prelude::*;

verus! {

/// The runtime flag that turns bigint support on in older runtimes.
pub const BIGINT_FLAG: &'static str = "--harmony-bigint";

/// Runtime option that evaluates a script given on the command line.
pub const EVAL_OPTION: &'static str = "-e";

/// The probe script: it fails where `BigInt` is unknown.
pub const PROBE_SCRIPT: &'static str = "BigInt";

/// How the runtime supports bigint.
#[derive(Debug, Clone, Copy, PartialEq, Eq, Structural)]
pub enum BigintSupport {
    /// Without any flag.
    Native,
    /// Only with the extra flag.
    Flagged,
    /// Not at all.
    Unsupported,
}

/// The next thing to do in the detection.
#[derive(Debug, Clone, PartialEq, Eq)]
pub enum BigintStep {
    /// Run the runtime with these arguments and report whether it succeeded.
    Probe(Vec<String>),
    /// The detection is over.
    Decided(BigintSupport),
}

/// The arguments of the probe, with the flag or without.
pub open spec fn probe_args(flagged: bool) -> Seq<Seq<char>> {
    let plain = seq![EVAL_OPTION@, PROBE_SCRIPT@];
    if flagged {
        plain.push(BIGINT_FLAG@)
    } else {
        plain
    }
}

/// What the detection concludes from the outcomes of the probes run so far.
pub open spec fn bigint_decision(results: Seq<bool>) -> Option<BigintSupport> {
    if results.len() == 0 {
        None
    } else if results[0] {
        Some(BigintSupport::Native)
    } else if results.len() == 1 {
        None
    } else if results[1] {
        Some(BigintSupport::Flagged)
    } else {
        Some(BigintSupport::Unsupported)
    }
}

fn probe_command(flagged: bool) -> (r: Vec<String>)
    ensures
        r@.map_values(|s: String| s@) == probe_args(flagged),
{
    let mut r: Vec<String> = Vec::new();
    r.push(String::from_str(EVAL_OPTION));
    r.push(String::from_str(PROBE_SCRIPT));
    if flagged {
        r.push(String::from_str(BIGINT_FLAG));
    }
    assert(r@.map_values(|s: String| s@) =~= probe_args(flagged));
    r
}

/// The next step of the detection, given whether each probe run so far
/// succeeded: first the plain probe, then, if it failed, the flagged one.
pub fn bigint_step(results: &Vec<bool>) -> (r: BigintStep)
    ensures
        match bigint_decision(results@) {
            Some(s) => r == BigintStep::Decided(s),
            None => r is Probe && r->Probe_0@.map_values(|s: String| s@) == probe_args(
                results@.len() == 1,
            ),
        },
{
    if results.len() == 0 {
        BigintStep::Probe(probe_command(false))
    } else if results[0] {
        BigintStep::Decided(BigintSupport::Native)
    } else if results.len() == 1 {
        BigintStep::Probe(probe_command(true))
    } else if results[1] {
        BigintStep::Decided(BigintSupport::Flagged)
    } else {
        BigintStep::Decided(BigintSupport::Unsupported)
    }
}

} // verus!
