use paramgen::decimal::{decimal_text, digits_two_places_text, double};
use paramgen::facts::facts;
use paramgen::harness::{ArchiveCheck, CheckError, CheckStage, CheckStep};
use paramgen::pipeline::{
    archive_entries, artifact_file_name, artifact_path, is_expected_listing, Artifact, Run,
    RunError, Stage, Step,
};
use paramgen::reporter::{
    fact_status, finished_status, initial_status, Reporter, ReporterAction, ReporterState,
};
use paramgen::seed::{derive_seed, setup_rng, setup_seed, SEED_IDENTIFIER};
use paramgen::size::{estimated_file_size, size_in_megabytes, size_report};
use rand::RngCore;

fn digits_to_u128(ds: &[u8]) -> u128 {
    ds.iter().rev().fold(0u128, |acc, d| acc * 10 + u128::from(*d))
}

#[test]
fn size_at_base_exponent_is_six_point_three() {
    assert_eq!(estimated_file_size(4), Some(vec![0, 3, 6]));
    assert_eq!(size_in_megabytes(4), "6.30");
}

#[test]
fn size_below_base_exponent_is_base() {
    assert_eq!(estimated_file_size(0), Some(vec![0, 3, 6]));
    assert_eq!(estimated_file_size(1), Some(vec![0, 3, 6]));
    assert_eq!(estimated_file_size(3), Some(vec![0, 3, 6]));
    assert_eq!(size_in_megabytes(1), "6.30");
}

#[test]
fn size_doubles_per_step() {
    for nu in 4..100 {
        let a = digits_to_u128(&estimated_file_size(nu).unwrap());
        let b = digits_to_u128(&estimated_file_size(nu + 1).unwrap());
        assert_eq!(b, 2 * a);
    }
}

#[test]
fn size_at_fifteen() {
    assert_eq!(estimated_file_size(15), Some(vec![0, 4, 2, 0, 9, 2, 1]));
    assert_eq!(size_in_megabytes(15), "12902.40");
}

#[test]
fn size_report_lines() {
    assert_eq!(
        size_report(4),
        "  Calculated public parameter size for nu = 4 is 6.30 MB\n"
    );
    assert_eq!(
        size_report(15),
        "  Calculated public parameter size for nu = 15 is 12902.40 MB\n"
    );
    assert_eq!(
        size_report(8),
        "  Calculated public parameter size for nu = 8 is 100.80 MB\n"
    );
}

#[test]
fn size_beyond_sixty_four_bits_is_exact() {
    assert_eq!(size_in_megabytes(60), "453962842438945996.80");
    assert_eq!(size_in_megabytes(100), "499137423839865326839326887116.80");
    let big = size_in_megabytes(1027);
    assert_eq!(big.len(), 312);
    assert!(big.starts_with("56627333748162951093"));
    assert!(big.ends_with("6032230.40"));
}

#[test]
fn size_beyond_largest_exponent() {
    assert!(estimated_file_size(2048).is_some());
    assert_eq!(estimated_file_size(2049), None);
    assert_eq!(estimated_file_size(usize::MAX), None);
    let most = size_in_megabytes(2048);
    assert_eq!(size_in_megabytes(2049), format!("more than {}", most));
}

#[test]
fn decimal_texts() {
    assert_eq!(decimal_text(0), "0");
    assert_eq!(decimal_text(7), "7");
    assert_eq!(decimal_text(10), "10");
    assert_eq!(decimal_text(1290240), "1290240");
    assert_eq!(decimal_text(u64::MAX), "18446744073709551615");
    assert_eq!(digits_two_places_text(&vec![5, 0, 1]), "1.05");
    assert_eq!(digits_two_places_text(&vec![0, 3, 6]), "6.30");
    assert_eq!(digits_two_places_text(&vec![9, 9, 9, 9]), "99.99");
    assert_eq!(double(&vec![5, 9]), vec![0, 9, 1]);
    assert_eq!(double(&vec![1]), vec![2]);
}

#[test]
fn seed_is_identifier_padded_with_zeros() {
    let seed = setup_seed();
    assert_eq!(&seed[..12], b"SpaceAndTime");
    assert!(seed[12..].iter().all(|b| *b == 0));
    assert_eq!(seed, derive_seed(SEED_IDENTIFIER.as_bytes()));
}

#[test]
fn seed_truncates_long_identifier() {
    let id = [7u8; 40];
    assert_eq!(derive_seed(&id), [7u8; 32]);
    assert_eq!(derive_seed(&[]), [0u8; 32]);
}

#[test]
fn seeded_generator_is_deterministic() {
    let mut a = setup_rng();
    let mut b = setup_rng();
    let mut xa = [0u8; 64];
    let mut xb = [0u8; 64];
    a.fill_bytes(&mut xa);
    b.fill_bytes(&mut xb);
    assert_eq!(xa, xb);
    assert_ne!(xa, [0u8; 64]);
    let mut expected = [0u8; 32];
    expected[..12].copy_from_slice(b"SpaceAndTime");
    assert_eq!(setup_rng().get_seed(), expected);
}

#[test]
fn fact_list() {
    let f = facts();
    assert_eq!(f.len(), 37);
    assert_eq!(f[0], "The Sun is 330,330 times larger than Earth.\n");
    assert_eq!(f[36], "Warning, parameter corruption detec- Rats are regarded as the most handsome rodent.\n");
}

#[test]
fn reporter_shows_facts_until_finished() {
    let f = facts();
    let mut r = Reporter::new();
    assert_eq!(r.state, ReporterState::Running);
    match r.wake_with(false, 1, &f) {
        ReporterAction::Show(s) => assert_eq!(s, fact_status(&f[1])),
        other => panic!("unexpected {:?}", other),
    }
    assert_eq!(r.state, ReporterState::Running);
    match r.wake_with(true, 0, &f) {
        ReporterAction::Finish(s) => assert_eq!(s, "Prover setup complete."),
        other => panic!("unexpected {:?}", other),
    }
    assert_eq!(r.state, ReporterState::Finished);
    assert!(matches!(r.wake_with(false, 0, &f), ReporterAction::Exit));
    assert!(matches!(r.wake(true, &f), ReporterAction::Exit));
}

#[test]
fn reporter_random_wake_shows_a_listed_fact() {
    let f = facts();
    let mut r = Reporter::new();
    for _ in 0..50 {
        match r.wake(false, &f) {
            ReporterAction::Show(s) => assert!(f.iter().any(|x| fact_status(x) == s)),
            other => panic!("unexpected {:?}", other),
        }
    }
    assert_eq!(finished_status(), "Prover setup complete.");
}

#[test]
fn status_texts() {
    assert_eq!(
        initial_status(),
        "Generating parameters for the SxT network.\nThis may take a long time, please wait..."
    );
    assert_eq!(
        fact_status(&String::from("X\n")),
        "Generating public parameters for the SxT network. This may take a long time, please wait...\n  Did you know? X\n"
    );
}

fn drive(outcomes: &[bool]) -> (Run, Vec<Step>) {
    let mut run = Run::new();
    let mut steps = Vec::new();
    for ok in outcomes {
        steps.push(run.next_step());
        run.record(*ok);
    }
    (run, steps)
}

#[test]
fn successful_run_removes_transient_files() {
    let (run, steps) = drive(&[true, true, true, true, true, true]);
    assert_eq!(
        steps,
        vec![
            Step::Generate,
            Step::SaveParameters,
            Step::WriteHandle,
            Step::BuildArchive,
            Step::Remove(Artifact::Parameters),
            Step::Remove(Artifact::Handle),
        ]
    );
    assert_eq!(run.stage, Stage::Done);
    assert_eq!(run.next_step(), Step::Stop);
    assert!(run.is_over());
    assert_eq!(run.closing_message(), "Temporary .bin files removed.");
}

#[test]
fn failed_save_stops_before_handle_and_archive() {
    let (mut run, steps) = drive(&[true, false]);
    assert_eq!(steps, vec![Step::Generate, Step::SaveParameters]);
    assert_eq!(run.stage, Stage::Failed(RunError::Persist(Artifact::Parameters)));
    assert_eq!(run.next_step(), Step::Stop);
    assert_eq!(run.closing_message(), "Failed to save parameters, aborting.");
    run.record(true);
    assert_eq!(run.stage, Stage::Failed(RunError::Persist(Artifact::Parameters)));
}

#[test]
fn failed_archive_keeps_transient_files() {
    let (run, steps) = drive(&[true, true, true, false]);
    assert_eq!(steps.last(), Some(&Step::BuildArchive));
    assert_eq!(run.stage, Stage::Failed(RunError::Archive));
    assert_eq!(run.next_step(), Step::Stop);
    assert!(!steps.iter().any(|s| matches!(s, Step::Remove(_))));
}

#[test]
fn each_failure_has_its_own_message() {
    let mut seen: Vec<String> = Vec::new();
    for n in 1..=6 {
        let mut outcomes = vec![true; n];
        outcomes[n - 1] = false;
        let (run, _) = drive(&outcomes);
        assert!(run.is_over());
        let m = run.closing_message();
        assert!(!m.is_empty());
        assert!(!seen.contains(&m));
        seen.push(m);
    }
    let (run, _) = drive(&[false]);
    assert_eq!(run.stage, Stage::Failed(RunError::Generation));
}

#[test]
fn archive_entry_names_are_base_names() {
    let names = archive_entries();
    assert_eq!(names, vec!["public_parameters.bin", "blitzar_handle.bin"]);
    assert!(names.iter().all(|n| !n.contains('/')));
    assert!(is_expected_listing(&names));
    let swapped = vec![names[1].clone(), names[0].clone()];
    assert!(is_expected_listing(&swapped));
    assert!(!is_expected_listing(&vec![names[0].clone()]));
    let nested = vec![String::from("./public_parameters.bin"), names[1].clone()];
    assert!(!is_expected_listing(&nested));
    let three = vec![names[0].clone(), names[1].clone(), names[1].clone()];
    assert!(!is_expected_listing(&three));
}

#[test]
fn artifact_names_and_paths() {
    assert_eq!(artifact_file_name(Artifact::Archive), "dory-params.tar.gz");
    assert_eq!(artifact_path(".", Artifact::Parameters), "./public_parameters.bin");
    assert_eq!(artifact_path("/tmp/w", Artifact::Handle), "/tmp/w/blitzar_handle.bin");
}

fn listing(names: &[&str]) -> Vec<String> {
    names.iter().map(|n| n.to_string()).collect()
}

#[test]
fn archive_check_walks_every_step_and_removes_copies() {
    let mut check = ArchiveCheck::new();
    assert_eq!(check.next_step(), CheckStep::Unpack);
    check.record_unpack(true, &listing(&["public_parameters.bin", "blitzar_handle.bin"]));
    let mut steps = Vec::new();
    while !check.is_over() {
        steps.push(check.next_step());
        check.record(true);
    }
    assert_eq!(
        steps,
        vec![
            CheckStep::LoadParameters,
            CheckStep::LoadHandle,
            CheckStep::Reconstruct,
            CheckStep::Remove(Artifact::Parameters),
            CheckStep::Remove(Artifact::Handle),
        ]
    );
    assert_eq!(check.stage, CheckStage::Done);
    assert_eq!(check.next_step(), CheckStep::Stop);
}

#[test]
fn archive_check_refuses_unexpected_entries() {
    let mut check = ArchiveCheck::new();
    check.record_unpack(true, &listing(&["dir/public_parameters.bin", "blitzar_handle.bin"]));
    assert_eq!(check.stage, CheckStage::Failed(CheckError::Listing));
    let mut check = ArchiveCheck::new();
    check.record_unpack(true, &listing(&["public_parameters.bin"]));
    assert_eq!(check.stage, CheckStage::Failed(CheckError::Listing));
    let mut check = ArchiveCheck::new();
    check.record_unpack(true, &listing(&["blitzar_handle.bin", "public_parameters.bin"]));
    assert_eq!(check.stage, CheckStage::LoadingParameters);
    let mut check = ArchiveCheck::new();
    check.record_unpack(false, &Vec::new());
    assert_eq!(check.stage, CheckStage::Failed(CheckError::Unpack));
    assert!(check.is_over());
}

#[test]
fn archive_check_stops_on_failed_reload() {
    let mut check = ArchiveCheck::new();
    check.record_unpack(true, &listing(&["public_parameters.bin", "blitzar_handle.bin"]));
    check.record(true);
    check.record(false);
    assert_eq!(check.stage, CheckStage::Failed(CheckError::LoadHandle));
    assert_eq!(check.next_step(), CheckStep::Stop);
    let mut check = ArchiveCheck::new();
    check.record_unpack(true, &listing(&["public_parameters.bin", "blitzar_handle.bin"]));
    check.record(false);
    assert_eq!(check.stage, CheckStage::Failed(CheckError::LoadParameters));
}
