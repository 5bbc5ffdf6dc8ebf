//! The resolution controller: the interactive/non-interactive decision and
//! the choice, for each required input, between using the explicit value,
//! prompting for one, and failing.
use vstd::prelude::*;
use vstd::string::StringExecFns;
use crate::error::Error;
use crate::views_of;

verus! {

/// Whether missing required inputs may be asked for interactively, or must
/// fail the run instead.
#[derive(Debug, PartialEq, Eq, Structural, Clone, Copy)]
pub enum InteractionMode {
    Interactive,
    NonInteractive,
}

/// The flags that enable interactive prompts.
pub open spec fn is_interactive_flag(a: Seq<char>) -> bool {
    a == "-i"@ || a == "--interactive"@
}

/// The flags that disable interactive prompts.
pub open spec fn is_non_interactive_flag(a: Seq<char>) -> bool {
    a == "-I"@ || a == "--no-interactive"@
}

/// The mode selected by a raw argument sequence: the two toggle flags
/// override each other, the last one given wins, and with neither given the
/// default is interactive.
pub open spec fn mode_of_args(args: Seq<Seq<char>>) -> InteractionMode
    decreases args.len(),
{
    if args.len() == 0 {
        InteractionMode::Interactive
    } else if is_interactive_flag(args.last()) {
        InteractionMode::Interactive
    } else if is_non_interactive_flag(args.last()) {
        InteractionMode::NonInteractive
    } else {
        mode_of_args(args.drop_last())
    }
}

/// Scans the raw argument sequence once for the two mutually overriding
/// toggle flags; the last occurrence decides the mode.
pub fn interaction_mode(args: &Vec<String>) -> (r: InteractionMode)
    ensures
        r == mode_of_args(views_of(args@)),
{
    let short_on = String::from_str("-i");
    let long_on = String::from_str("--interactive");
    let short_off = String::from_str("-I");
    let long_off = String::from_str("--no-interactive");
    let mut mode = InteractionMode::Interactive;
    let mut i: usize = 0;
    while i < args.len()
        invariant
            i <= args@.len(),
            short_on@ == "-i"@,
            long_on@ == "--interactive"@,
            short_off@ == "-I"@,
            long_off@ == "--no-interactive"@,
            mode == mode_of_args(views_of(args@.take(i as int))),
        decreases args@.len() - i,
    {
        proof {
            let vs = views_of(args@.take(i + 1));
            assert(vs.drop_last() =~= views_of(args@.take(i as int)));
            assert(vs.last() == args@[i as int]@);
        }
        if args[i] == short_on || args[i] == long_on {
            mode = InteractionMode::Interactive;
        } else if args[i] == short_off || args[i] == long_off {
            mode = InteractionMode::NonInteractive;
        }
        i = i + 1;
    }
    proof {
        assert(args@.take(args@.len() as int) =~= args@);
    }
    mode
}

/// Where one required input comes from: an explicit value was given, or a
/// prompt is needed.
#[derive(Debug)]
pub enum InputPlan {
    /// Use the explicitly supplied values, in the order they were given.
    Given(Vec<String>),
    /// The input is missing and interaction is allowed: prompt for it.
    Prompt,
}

/// Decides where one required input (the profile list, or the extra
/// arguments) comes from: an explicit value is used as given; a missing one
/// is prompted for when interaction is allowed, and fails the run otherwise —
/// before any filesystem discovery.
pub fn plan_input(explicit: Option<Vec<String>>, mode: InteractionMode) -> (r: Result<
    InputPlan,
    Error,
>)
    ensures
        explicit matches Some(v) ==> (r matches Ok(p) && p == InputPlan::Given(v)),
        explicit is None && mode == InteractionMode::Interactive ==> (r matches Ok(p) && p
            == InputPlan::Prompt),
        explicit is None && mode == InteractionMode::NonInteractive ==> (r matches Err(e) && e
            == Error::RequiredValueMissing),
{
    match explicit {
        Some(values) => Ok(InputPlan::Given(values)),
        None => match mode {
            InteractionMode::Interactive => Ok(InputPlan::Prompt),
            InteractionMode::NonInteractive => Err(Error::RequiredValueMissing),
        },
    }
}

} // verus!
