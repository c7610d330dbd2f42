use gnverify::batch::Batcher;
use gnverify::verif::verification::Verification;
use gnverify::verif::{Verified, VerifiedData};
use gnverify::{GNVerify, GNVerifyError, Input, MatchType, VerifyStep};

fn one_exact(name: &str) -> Verified {
    Verified {
        supplied_id: None,
        supplied_input: Some(name.to_owned()),
        matched_data_sources: 1,
        quality_summary: None,
        results: vec![VerifiedData {
            match_kind: "ExactMatch".to_owned(),
            data_source_id: 1,
            data_source_title: "Catalogue of Life".to_owned(),
            taxon_id: "9606".to_owned(),
            name: "Homo sapiens Linnaeus, 1758".to_owned(),
            canonical_name: Some("Homo sapiens".to_owned()),
            accepted_name: None,
            synonym: false,
            classification_path: None,
            classification_ranks: None,
            classification_ids: None,
            verbatim_edit_distance: Some(0),
            stem_edit_distance: None,
        }],
        preferred_results: vec![],
    }
}

fn inputs_of(names: &[&str]) -> Vec<Input> {
    names.iter().map(|n| Input { id: None, name: (*n).to_owned() }).collect()
}

#[test]
fn successful_call_yields_one_output_per_input() {
    let gnv = GNVerify::new();
    let inputs = inputs_of(&["Homo sapiens"]);
    let results = vec![one_exact("Homo sapiens")];
    match gnv.verify_step(&inputs, 0, Ok(results)) {
        VerifyStep::Done { outputs } => {
            assert_eq!(outputs.len(), 1);
            assert_eq!(outputs[0].name, "Homo sapiens");
            assert!(matches!(outputs[0].match_type, MatchType::Exact));
            assert_eq!(outputs[0].retries, 0);
            assert!(outputs[0].error.is_none());
        }
        VerifyStep::Retry { .. } => panic!("a successful outcome must finish the batch"),
    }
}

#[test]
fn outputs_match_inputs_for_larger_batches() {
    let gnv = GNVerify::new();
    let names = ["Homo sapiens", "Puma concolor", "Canis lupus"];
    let inputs = inputs_of(&names);
    let results: Vec<Verified> = names.iter().map(|n| one_exact(n)).collect();
    match gnv.verify_step(&inputs, 0, Ok(results)) {
        VerifyStep::Done { outputs } => {
            assert_eq!(outputs.len(), inputs.len());
            for (o, n) in outputs.iter().zip(names.iter()) {
                assert_eq!(o.name, *n);
            }
        }
        VerifyStep::Retry { .. } => panic!("a successful outcome must finish the batch"),
    }
}

#[test]
fn four_failures_yield_degraded_outputs() {
    let gnv = GNVerify::new();
    let inputs = inputs_of(&["Homo sapiens"]);
    let mut retries: i64 = 0;
    let mut failures = 0;
    let outputs = loop {
        failures += 1;
        match gnv.verify_step(&inputs, retries, Err("connection refused".to_owned())) {
            VerifyStep::Retry { retries: r } => retries = r,
            VerifyStep::Done { outputs } => break outputs,
        }
    };
    assert_eq!(failures, 4);
    assert_eq!(outputs.len(), 1);
    assert_eq!(outputs[0].retries, 3);
    assert_eq!(outputs[0].name, "Homo sapiens");
    assert_eq!(outputs[0].error.as_deref(), Some("connection refused"));
    assert!(matches!(outputs[0].match_type, MatchType::NoMatch));
    assert!(outputs[0].best_result.is_none());
    assert!(outputs[0].preferred_results.is_none());
}

#[test]
fn empty_batch_yields_no_outputs() {
    let gnv = GNVerify::new();
    let inputs: Vec<Input> = Vec::new();
    match gnv.verify_step(&inputs, 0, Ok(Vec::new())) {
        VerifyStep::Done { outputs } => assert!(outputs.is_empty()),
        VerifyStep::Retry { .. } => panic!("a successful outcome must finish the batch"),
    }
}

#[test]
fn degraded_outputs_keep_ids() {
    let gnv = GNVerify::new();
    let mut inputs = inputs_of(&["Homo sapiens", "Puma concolor"]);
    inputs[0].id = Some("a1".to_owned());
    match gnv.verify_step(&inputs, 3, Err("boom".to_owned())) {
        VerifyStep::Done { outputs } => {
            assert_eq!(outputs.len(), 2);
            assert_eq!(outputs[0].id.as_deref(), Some("a1"));
            assert!(outputs[1].id.is_none());
        }
        VerifyStep::Retry { .. } => panic!("the retry budget was already exhausted"),
    }
}

#[test]
fn batches_of_two_from_five_names() {
    let mut batcher = Batcher::new(2, 1);
    let names = ["a", "b", "c", "d", "e"];
    let mut batches: Vec<Vec<Input>> = Vec::new();
    for name in names {
        let record = vec![name.to_owned()];
        match batcher.step(&record) {
            Ok(Some(batch)) => batches.push(batch),
            Ok(None) => {}
            Err(_) => panic!("the valve must not trip on valid records"),
        }
    }
    batches.push(batcher.finish());
    let sizes: Vec<usize> = batches.iter().map(|b| b.len()).collect();
    assert_eq!(sizes, vec![2, 2, 1]);
    let all: Vec<String> = batches.iter().flatten().map(|i| i.name.clone()).collect();
    assert_eq!(all, vec!["a", "b", "c", "d", "e"]);
}

#[test]
fn short_records_are_dropped() {
    let mut batcher = Batcher::new(10, 2);
    let with_two = vec!["id1".to_owned(), "Homo sapiens".to_owned()];
    let with_one = vec!["only-one-field".to_owned()];
    assert!(matches!(batcher.step(&with_two), Ok(None)));
    assert!(matches!(batcher.step(&with_one), Ok(None)));
    let rest = batcher.finish();
    assert_eq!(rest.len(), 1);
    assert_eq!(rest[0].name, "Homo sapiens");
}

#[test]
fn valve_trips_on_the_101st_malformed_record() {
    let mut batcher = Batcher::new(500, 2);
    let short = vec!["only-one-field".to_owned()];
    for _ in 0..100 {
        match batcher.step(&short) {
            Ok(None) => {}
            _ => panic!("the valve must stay quiet for the first 100 records"),
        }
    }
    assert!(matches!(batcher.step(&short), Err(GNVerifyError::ConfigurationSuspect)));
}

#[test]
fn valve_stays_quiet_on_a_healthy_stream() {
    let mut batcher = Batcher::new(2000, 1);
    let good = vec!["Homo sapiens".to_owned()];
    for _ in 0..1000 {
        assert!(matches!(batcher.step(&good), Ok(None)));
    }
    assert_eq!(batcher.finish().len(), 1000);
}

#[test]
fn configuration_error_message() {
    let msg = GNVerifyError::ConfigurationSuspect.message();
    assert!(msg.contains("name_field"));
}

#[test]
fn gnverify_defaults_and_setters() {
    let mut gnv = GNVerify::new();
    assert!(gnv.sources.is_none());
    assert_eq!(gnv.name_field, 1);
    assert_eq!(gnv.batch_size, 500);
    assert!(!gnv.preferred_only);
    gnv.sources(vec![1, 11, 169]);
    assert_eq!(gnv.sources.as_ref().unwrap()[1], 11_i64);
    gnv.name_field(3);
    assert_eq!(gnv.name_field, 3);
    gnv.preferred_only();
    assert!(gnv.preferred_only);
    gnv.format(gnverify::Format::Pretty);
    assert_eq!(gnv.format.to_string(), "Pretty");
}

#[test]
fn verification_record_starts_empty() {
    let inputs = inputs_of(&["Homo sapiens"]);
    let v = Verification::new(&inputs, &Some(vec![1, 11]));
    assert!(v.id.is_none());
    assert_eq!(v.name, "");
    assert_eq!(v.retries, 0);
}
