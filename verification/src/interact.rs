//! The interactive resolver's decisions.
//!
//! The prompts themselves (a yes/no confirmation, a multi-select checklist,
//! a free-text line) run at the caller's edge; these functions decide which
//! prompt is needed for a set of discovered profiles and what each possible
//! answer means. Shell-lexical tokenization of the free-text answer is done
//! by `shlex`, behind a trusted wrapper.
use vstd::prelude::*;
use crate::error::Error;
use crate::views_of;

verus! {

/// Which prompt the discovered profiles call for.
#[derive(Debug)]
pub enum ProfilePrompt {
    /// Exactly one profile was discovered: ask a yes/no confirmation for it.
    ConfirmSingle(String),
    /// Several profiles were discovered: present them as a checklist, in the
    /// given (sorted) order.
    SelectMany(Vec<String>),
}

/// Decides which prompt a set of discovered profiles calls for: none can be
/// offered when no profile exists, a single one is confirmed yes/no, several
/// are offered as a checklist.
pub fn profile_prompt_plan(available: Vec<String>) -> (r: Result<ProfilePrompt, Error>)
    ensures
        match r {
            Ok(ProfilePrompt::ConfirmSingle(n)) => available@.len() == 1 && n == available@[0],
            Ok(ProfilePrompt::SelectMany(v)) => available@.len() > 1 && v == available,
            Err(e) => available@.len() == 0 && e == Error::MissingProfiles,
        },
{
    if available.len() == 0 {
        Err(Error::MissingProfiles)
    } else if available.len() == 1 {
        let mut available = available;
        let n = available.pop().unwrap();
        Ok(ProfilePrompt::ConfirmSingle(n))
    } else {
        Ok(ProfilePrompt::SelectMany(available))
    }
}

/// Decides what the yes/no answer to the single-profile confirmation means:
/// confirming uses that one profile, declining cancels the run.
pub fn resolve_single_confirmation(available: Vec<String>, confirmed: bool) -> (r: Result<
    Vec<String>,
    Error,
>)
    requires
        available@.len() == 1,
    ensures
        confirmed ==> (r matches Ok(v) && v == available),
        !confirmed ==> (r matches Err(e) && e == Error::InteractionCancelled),
{
    if confirmed {
        Ok(available)
    } else {
        Err(Error::InteractionCancelled)
    }
}

/// Decides what the checklist's answer means: cancelling the prompt cancels
/// the run, confirming an empty selection is a failure (at least one profile
/// is required), and otherwise the chosen profiles are taken in the order the
/// checklist reports them, which is its display order.
pub fn resolve_multi_selection(available: &Vec<String>, selection: Option<Vec<usize>>) -> (r:
    Result<Vec<String>, Error>)
    requires
        selection matches Some(idx) ==> forall|k: int|
            0 <= k < idx@.len() ==> idx@[k] < available@.len(),
    ensures
        selection is None ==> (r matches Err(e) && e == Error::InteractionCancelled),
        selection matches Some(idx) ==> (idx@.len() == 0 ==> (r matches Err(e) && e
            == Error::InteractionEmpty)),
        selection matches Some(idx) ==> (idx@.len() > 0 ==> (r matches Ok(v) && v@.len()
            == idx@.len() && forall|k: int|
            0 <= k < idx@.len() ==> v@[k] == available@[idx@[k] as int])),
{
    match selection {
        None => Err(Error::InteractionCancelled),
        Some(indices) => {
            if indices.len() == 0 {
                Err(Error::InteractionEmpty)
            } else {
                let mut chosen: Vec<String> = Vec::new();
                let mut i: usize = 0;
                while i < indices.len()
                    invariant
                        i <= indices@.len(),
                        chosen@.len() == i,
                        forall|k: int|
                            0 <= k < indices@.len() ==> indices@[k] < available@.len(),
                        forall|k: int|
                            0 <= k < i ==> chosen@[k] == available@[indices@[k] as int],
                    decreases indices@.len() - i,
                {
                    chosen.push(available[indices[i]].clone());
                    i = i + 1;
                }
                Ok(chosen)
            }
        },
    }
}

/// What `shlex`'s POSIX-shell word splitting returns for a line of input:
/// the sequence of words, or nothing when the line is erroneous (for example
/// an unterminated quote).
pub uninterp spec fn shell_split(s: Seq<char>) -> Option<Seq<Seq<char>>>;

/// Relies on `shlex::split`: POSIX-shell word splitting of the whole line,
/// returning `None` exactly on erroneous input; the result depends on the
/// input string alone.
#[verifier::external_body]
fn shlex_split(s: &str) -> (r: Option<Vec<String>>)
    ensures
        (r is None) == (shell_split(s@) is None),
        r matches Some(v) ==> shell_split(s@) == Some(views_of(v@)),
{
    shlex::split(s)
}

/// Tokenizes the free-text extra-argument line with POSIX-shell word
/// splitting. A line that cannot be tokenized, or that tokenizes to no words
/// at all, is a failure — never an empty-but-valid result.
pub fn tokenize_extra_args(input: &String) -> (r: Result<Vec<String>, Error>)
    ensures
        shell_split(input@) is None ==> (r matches Err(e) && e == Error::InteractionEmpty),
        shell_split(input@) matches Some(ts) ==> (ts.len() == 0 ==> (r matches Err(e) && e
            == Error::InteractionEmpty)),
        shell_split(input@) matches Some(ts) ==> (ts.len() > 0 ==> (r matches Ok(v) && views_of(v@)
            == ts)),
{
    match shlex_split(input.as_str()) {
        None => Err(Error::InteractionEmpty),
        Some(tokens) => {
            if tokens.len() == 0 {
                Err(Error::InteractionEmpty)
            } else {
                Ok(tokens)
            }
        },
    }
}

} // verus!
