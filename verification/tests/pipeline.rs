use yt_dli::collate::{make_collator, readable_names, sort_dir_results, sort_names};
use yt_dli::error::{Error, FileContextErrorExt, FileContextResultExt};
use yt_dli::interact::{
    profile_prompt_plan, resolve_multi_selection, resolve_single_confirmation,
    tokenize_extra_args, ProfilePrompt,
};
use yt_dli::invoke::{exit_code_from_status, ytdlp_args};
use yt_dli::profile::{discovery_error, profile_path, validate_outcome, validate_profiles};
use yt_dli::resolve::{interaction_mode, plan_input, InputPlan, InteractionMode};

fn strings(items: &[&str]) -> Vec<String> {
    items.iter().map(|s| s.to_string()).collect()
}

#[test]
fn numeric_suffixes_sort_by_value() {
    let collator = make_collator().unwrap();
    let sorted = sort_names(&collator, &strings(&["p10", "p2", "p1"]));
    assert_eq!(sorted, strings(&["p1", "p2", "p10"]));
}

#[test]
fn p2_sorts_before_p10() {
    let collator = make_collator().unwrap();
    let sorted = sort_names(&collator, &strings(&["p10", "p2"]));
    assert_eq!(sorted, strings(&["p2", "p10"]));
}

#[test]
fn list_profiles_order() {
    let collator = make_collator().unwrap();
    let entries = vec![
        Some("b".to_string()),
        Some("a10".to_string()),
        Some("a2".to_string()),
    ];
    let sorted = sort_dir_results(&collator, &entries);
    assert_eq!(sorted, strings(&["a2", "a10", "b"]));
}

#[test]
fn unreadable_entries_are_dropped_silently() {
    let entries = vec![Some("x".to_string()), None, Some("y".to_string())];
    assert_eq!(readable_names(&entries), strings(&["x", "y"]));
}

#[test]
fn duplicate_names_are_kept_by_sort() {
    let collator = make_collator().unwrap();
    let sorted = sort_names(&collator, &strings(&["b", "a", "b"]));
    assert_eq!(sorted, strings(&["a", "b", "b"]));
}

#[test]
fn sorting_empty_input_gives_empty_output() {
    let collator = make_collator().unwrap();
    let sorted = sort_names(&collator, &Vec::new());
    assert!(sorted.is_empty());
}

#[test]
fn non_interactive_with_nothing_supplied_fails() {
    let r = plan_input(None, InteractionMode::NonInteractive);
    assert!(matches!(r, Err(Error::RequiredValueMissing)));
}

#[test]
fn explicit_values_are_used_as_given() {
    match plan_input(Some(strings(&["work", "other"])), InteractionMode::NonInteractive) {
        Ok(InputPlan::Given(v)) => assert_eq!(v, strings(&["work", "other"])),
        other => panic!("unexpected plan: {other:?}"),
    }
}

#[test]
fn missing_value_prompts_when_interactive() {
    assert!(matches!(
        plan_input(None, InteractionMode::Interactive),
        Ok(InputPlan::Prompt)
    ));
}

#[test]
fn interaction_defaults_to_interactive() {
    assert_eq!(interaction_mode(&Vec::new()), InteractionMode::Interactive);
    assert_eq!(
        interaction_mode(&strings(&["-p", "work", "url"])),
        InteractionMode::Interactive
    );
}

#[test]
fn last_interaction_flag_wins() {
    assert_eq!(
        interaction_mode(&strings(&["-i", "-I"])),
        InteractionMode::NonInteractive
    );
    assert_eq!(
        interaction_mode(&strings(&["-I", "--interactive"])),
        InteractionMode::Interactive
    );
    assert_eq!(
        interaction_mode(&strings(&["--no-interactive", "url", "-i", "-I"])),
        InteractionMode::NonInteractive
    );
    assert_eq!(
        interaction_mode(&strings(&["--no-interactive"])),
        InteractionMode::NonInteractive
    );
}

#[test]
fn validation_fails_on_first_missing_profile() {
    let dir = "/home/u/.config/yt-dli".to_string();
    let names = strings(&["a", "missing", "b"]);
    let exists = vec![true, false, true];
    match validate_profiles(&names, &exists, &dir) {
        Err(Error::ValidationFailure {
            name,
            expected_path,
        }) => {
            assert_eq!(name, "missing");
            assert_eq!(expected_path, "/home/u/.config/yt-dli/missing");
        }
        other => panic!("unexpected result: {other:?}"),
    }
    // The names after the first missing one are irrelevant to the failure.
    match validate_profiles(&names, &vec![true, false, false], &dir) {
        Err(Error::ValidationFailure { name, .. }) => assert_eq!(name, "missing"),
        other => panic!("unexpected result: {other:?}"),
    }
}

#[test]
fn validation_passes_when_all_profiles_exist() {
    let dir = "/cfg".to_string();
    assert!(validate_profiles(&strings(&["a", "b"]), &vec![true, true], &dir).is_ok());
    assert!(validate_outcome(&"a".to_string(), true, &dir).is_ok());
}

#[test]
fn absent_profile_reports_its_expected_path() {
    let dir = "/cfg".to_string();
    match validate_outcome(&"nope".to_string(), false, &dir) {
        Err(Error::ValidationFailure {
            name,
            expected_path,
        }) => {
            assert_eq!(name, "nope");
            assert_eq!(expected_path, "/cfg/nope");
        }
        other => panic!("unexpected result: {other:?}"),
    }
}

#[test]
fn no_profiles_cannot_be_prompted() {
    assert!(matches!(
        profile_prompt_plan(Vec::new()),
        Err(Error::MissingProfiles)
    ));
}

#[test]
fn single_profile_asks_for_confirmation() {
    match profile_prompt_plan(strings(&["solo"])) {
        Ok(ProfilePrompt::ConfirmSingle(n)) => assert_eq!(n, "solo"),
        other => panic!("unexpected plan: {other:?}"),
    }
}

#[test]
fn several_profiles_ask_for_a_selection() {
    match profile_prompt_plan(strings(&["a", "b"])) {
        Ok(ProfilePrompt::SelectMany(v)) => assert_eq!(v, strings(&["a", "b"])),
        other => panic!("unexpected plan: {other:?}"),
    }
}

#[test]
fn confirming_the_single_profile_uses_it() {
    let r = resolve_single_confirmation(strings(&["solo"]), true);
    assert_eq!(r.unwrap(), strings(&["solo"]));
}

#[test]
fn declining_the_single_profile_cancels() {
    assert!(matches!(
        resolve_single_confirmation(strings(&["solo"]), false),
        Err(Error::InteractionCancelled)
    ));
}

#[test]
fn selection_keeps_menu_order() {
    let available = strings(&["a2", "a10", "b"]);
    let r = resolve_multi_selection(&available, Some(vec![0, 2]));
    assert_eq!(r.unwrap(), strings(&["a2", "b"]));
}

#[test]
fn cancelling_the_selection_fails() {
    let available = strings(&["a", "b"]);
    assert!(matches!(
        resolve_multi_selection(&available, None),
        Err(Error::InteractionCancelled)
    ));
}

#[test]
fn empty_selection_fails() {
    let available = strings(&["a", "b"]);
    assert!(matches!(
        resolve_multi_selection(&available, Some(Vec::new())),
        Err(Error::InteractionEmpty)
    ));
}

#[test]
fn extra_args_are_split_like_a_shell() {
    let r = tokenize_extra_args(&"a b 'c d'".to_string());
    assert_eq!(r.unwrap(), strings(&["a", "b", "c d"]));
}

#[test]
fn empty_extra_args_are_rejected() {
    assert!(matches!(
        tokenize_extra_args(&String::new()),
        Err(Error::InteractionEmpty)
    ));
    assert!(matches!(
        tokenize_extra_args(&"   ".to_string()),
        Err(Error::InteractionEmpty)
    ));
}

#[test]
fn untokenizable_extra_args_are_rejected() {
    assert!(matches!(
        tokenize_extra_args(&"'unterminated".to_string()),
        Err(Error::InteractionEmpty)
    ));
}

#[test]
fn invocation_lists_profiles_then_extra_args() {
    let dir = "/cfg".to_string();
    let args = ytdlp_args(
        &dir,
        &strings(&["work", "archive"]),
        &strings(&["https://example.com/x"]),
    );
    assert_eq!(
        args,
        strings(&[
            "--config-location",
            "/cfg/work",
            "--config-location",
            "/cfg/archive",
            "https://example.com/x",
        ])
    );
}

#[test]
fn invocation_keeps_duplicate_profiles() {
    let dir = "/cfg".to_string();
    let args = ytdlp_args(&dir, &strings(&["a", "a"]), &Vec::new());
    assert_eq!(
        args,
        strings(&["--config-location", "/cfg/a", "--config-location", "/cfg/a"])
    );
}

#[test]
fn profile_paths_join_the_directory() {
    assert_eq!(
        profile_path(&"/cfg".to_string(), &"name".to_string()),
        "/cfg/name"
    );
}

#[test]
fn exit_status_is_passed_through() {
    assert_eq!(exit_code_from_status(Some(0)), 0);
    assert_eq!(exit_code_from_status(Some(5)), 5);
    assert_eq!(exit_code_from_status(Some(-1)), 255);
}

#[test]
fn missing_exit_code_is_generic_failure() {
    assert_eq!(exit_code_from_status(None), 1);
}

#[test]
fn discovery_failures_are_classified() {
    let dir = "/cfg".to_string();
    assert!(matches!(
        discovery_error(true, &dir, "gone".to_string()),
        Error::MissingProfiles
    ));
    match discovery_error(false, &dir, "permission denied".to_string()) {
        Error::FilesystemAccess(f) => {
            assert_eq!(f.context, "/cfg");
            assert_eq!(f.source, "permission denied");
        }
        other => panic!("unexpected error: {other:?}"),
    }
}

#[test]
fn result_failures_get_their_path_attached() {
    let ok: Result<u32, String> = Ok(7);
    assert_eq!(ok.with_path(&"/p".to_string()).unwrap(), 7);
    let err: Result<u32, String> = Err("denied".to_string());
    let f = err.with_path(&"/p".to_string()).unwrap_err();
    assert_eq!(f.source, "denied");
    assert_eq!(f.context, "/p");
}

#[test]
fn errors_carry_their_diagnostics() {
    assert_eq!(
        Error::MissingProfiles.message(),
        "no profiles found in the profile directory"
    );
    assert_eq!(
        Error::RequiredValueMissing.message(),
        "a required value is missing and prompts are disabled"
    );
    let fca = Error::FilesystemAccess("denied".to_string().with_path(&"/cfg/x".to_string()));
    assert_eq!(fca.message(), "while accessing '/cfg/x': denied");
    let vf = Error::ValidationFailure {
        name: "missing".to_string(),
        expected_path: "/cfg/missing".to_string(),
    };
    assert_eq!(vf.message(), "ensure the profile exists at '/cfg/missing'");
    assert_eq!(Error::InteractionCancelled.message(), "interaction was cancelled");
    assert_eq!(Error::InteractionEmpty.message(), "no usable input was given");
    assert_eq!(
        Error::LocaleDataUnavailable.message(),
        "locale collation data is unavailable"
    );
}
