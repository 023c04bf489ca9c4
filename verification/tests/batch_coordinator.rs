use uad_ng::batch::{flatten, Batch, CommandFailure, CommandOutcome, PackageRestore};
use uad_ng::effect::{Command, Effect};
use uad_ng::packages::PackageInfo;

fn command(device: &str, index: usize, instruction: &str) -> Command {
    Command {
        device_id: device.to_string(),
        package: PackageInfo { i_user: 0, index },
        instruction: instruction.to_string(),
    }
}

fn success(index: usize) -> CommandOutcome {
    CommandOutcome {
        device_id: "A".to_string(),
        package: PackageInfo { i_user: 0, index },
        error: None,
    }
}

fn failure(index: usize, reason: &str) -> CommandOutcome {
    CommandOutcome {
        device_id: "A".to_string(),
        package: PackageInfo { i_user: 0, index },
        error: Some(reason.to_string()),
    }
}

#[test]
fn batch_counts_its_commands_before_it_dispatches_them() {
    let mut batch = Batch::new();
    let mut effects = vec![Effect::SaveConfig];
    let commands = vec![command("A", 0, "one"), command("A", 0, "two"), command("A", 4, "three")];
    let outstanding = batch.submit_batch(commands, &mut effects);
    assert_eq!(outstanding, 3);
    assert_eq!(batch.outstanding, 3);
    assert_eq!(batch.last_error, None);
    assert_eq!(
        effects,
        vec![
            Effect::SaveConfig,
            Effect::SubmitCommand(command("A", 0, "one")),
            Effect::SubmitCommand(command("A", 0, "two")),
            Effect::SubmitCommand(command("A", 4, "three")),
        ]
    );
}

#[test]
fn batch_without_commands_has_nothing_outstanding() {
    let mut batch = Batch { outstanding: 7, last_error: None };
    let mut effects = Vec::new();
    assert_eq!(batch.submit_batch(Vec::new(), &mut effects), 0);
    assert_eq!(batch, Batch::new());
    assert!(effects.is_empty());
}

#[test]
fn new_batch_drops_the_failure_of_the_last_one() {
    let mut batch = Batch::new();
    let mut effects = Vec::new();
    batch.submit_batch(vec![command("A", 0, "one")], &mut effects);
    assert!(batch.complete(failure(0, "no")));
    assert!(batch.last_error.is_some());
    batch.submit_batch(vec![command("A", 1, "two")], &mut effects);
    assert_eq!(batch.last_error, None);
    assert_eq!(batch.outstanding, 1);
}

#[test]
fn every_completion_counts_and_the_last_one_drains() {
    let mut batch = Batch { outstanding: 3, last_error: None };
    assert!(!batch.complete(success(0)));
    assert_eq!(batch.outstanding, 2);
    assert!(!batch.complete(failure(1, "denied")));
    assert_eq!(batch.outstanding, 1);
    assert!(batch.complete(success(2)));
    assert_eq!(batch.outstanding, 0);
    assert_eq!(
        batch.last_error,
        Some(CommandFailure {
            package: PackageInfo { i_user: 0, index: 1 },
            reason: "denied".to_string(),
        })
    );
}

#[test]
fn any_mix_of_outcomes_drains_exactly_once() {
    for pattern in 0u32..16 {
        let mut batch = Batch { outstanding: 4, last_error: None };
        let mut drains = 0;
        for k in 0..4 {
            let outcome = if pattern & (1 << k) != 0 { failure(k, "failed") } else { success(k) };
            if batch.complete(outcome) {
                drains += 1;
            }
        }
        assert_eq!(batch.outstanding, 0);
        assert_eq!(drains, 1);
        assert_eq!(batch.last_error.is_some(), pattern != 0);
    }
}

#[test]
fn counter_never_goes_below_zero() {
    let mut batch = Batch { outstanding: 1, last_error: None };
    assert!(batch.complete(success(0)));
    assert!(!batch.complete(success(1)));
    assert!(!batch.complete(failure(2, "late")));
    assert_eq!(batch.outstanding, 0);
    assert_eq!(batch.last_error, None);
}

#[test]
fn later_failure_takes_the_place_of_an_earlier_one() {
    let mut batch = Batch { outstanding: 3, last_error: None };
    batch.complete(failure(0, "first"));
    batch.complete(failure(1, "second"));
    batch.complete(success(2));
    assert_eq!(
        batch.last_error,
        Some(CommandFailure {
            package: PackageInfo { i_user: 0, index: 1 },
            reason: "second".to_string(),
        })
    );
}

#[test]
fn restore_is_flattened_package_after_package() {
    let plan = vec![
        PackageRestore { index: 3, commands: vec!["a".to_string(), "b".to_string()] },
        PackageRestore { index: 1, commands: Vec::new() },
        PackageRestore { index: 8, commands: vec!["c".to_string()] },
    ];
    let commands = flatten(&"A".to_string(), &plan);
    assert_eq!(commands, vec![command("A", 3, "a"), command("A", 3, "b"), command("A", 8, "c")]);
}

#[test]
fn restore_of_packages_without_commands_is_empty() {
    let plan = vec![
        PackageRestore { index: 3, commands: Vec::new() },
        PackageRestore { index: 1, commands: Vec::new() },
    ];
    assert!(flatten(&"A".to_string(), &plan).is_empty());
    assert!(flatten(&"A".to_string(), &Vec::new()).is_empty());
}
