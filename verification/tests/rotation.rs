use open_sight::rotation::{after_probe, handle_output_path, rotated_file_name, RotationStep};

fn rotate(stem: &str, existing: &[&str]) -> Option<String> {
    let mut step = handle_output_path(true, false, stem);
    loop {
        match step {
            RotationStep::Probe { name, counter } => {
                step = after_probe(stem, counter, existing.contains(&name.as_str()));
            }
            RotationStep::Rename { name } => return Some(name),
            _ => return None,
        }
    }
}

#[test]
fn free_target_needs_nothing() {
    assert_eq!(handle_output_path(false, false, "out"), RotationStep::Proceed);
    assert_eq!(handle_output_path(false, true, "out"), RotationStep::Proceed);
}

#[test]
fn overwrite_removes_the_old_file() {
    assert_eq!(handle_output_path(true, true, "out"), RotationStep::Remove);
}

#[test]
fn rotation_begins_at_number_one() {
    assert_eq!(
        handle_output_path(true, false, "out"),
        RotationStep::Probe { name: String::from("out_1.csv"), counter: 1 }
    );
}

#[test]
fn rotation_with_out_1_taken_renames_to_out_2() {
    assert_eq!(rotate("out", &["out.csv", "out_1.csv"]), Some(String::from("out_2.csv")));
}

#[test]
fn rotation_takes_the_smallest_free_number() {
    assert_eq!(rotate("out", &[]), Some(String::from("out_1.csv")));
    assert_eq!(rotate("out", &["out_2.csv", "out_3.csv"]), Some(String::from("out_1.csv")));
    assert_eq!(
        rotate("out", &["out_1.csv", "out_2.csv", "out_4.csv"]),
        Some(String::from("out_3.csv"))
    );
    let taken: Vec<String> = (1..=12).map(|n| format!("r_{}.csv", n)).collect();
    let names: Vec<&str> = taken.iter().map(|s| s.as_str()).collect();
    assert_eq!(rotate("r", &names), Some(String::from("r_13.csv")));
}

#[test]
fn answers_lead_to_the_next_number_or_the_renaming() {
    assert_eq!(
        after_probe("out", 1, true),
        RotationStep::Probe { name: String::from("out_2.csv"), counter: 2 }
    );
    assert_eq!(after_probe("out", 1, false), RotationStep::Rename { name: String::from("out_1.csv") });
    assert_eq!(
        after_probe("patient_ids_not_found", 9, true),
        RotationStep::Probe { name: String::from("patient_ids_not_found_10.csv"), counter: 10 }
    );
}

#[test]
fn rotated_names_are_stem_number_and_ending() {
    assert_eq!(rotated_file_name("out", 1), "out_1.csv");
    assert_eq!(rotated_file_name("open_sight_results", 120), "open_sight_results_120.csv");
    assert_eq!(rotated_file_name("", 0), "_0.csv");
    assert_eq!(rotated_file_name("a.b", u64::MAX), "a.b_18446744073709551615.csv");
}
