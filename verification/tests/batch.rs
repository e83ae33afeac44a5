use ssimulacra2_rs::collector::BatchCollector;
use ssimulacra2_rs::stats::summarize;
use ssimulacra2_rs::structs::{BatchError, FilePair, ScoreError, SCORE_SCALE};

fn pair(name: &str) -> FilePair {
    FilePair {
        identifier: name.to_owned(),
        source_path: format!("source/{}", name),
        distorted_path: format!("distorted/{}", name),
    }
}

#[test]
fn three_files_out_of_order() {
    // Pairs a.png, b.png, c.png score 100.0, 80.0 and 90.0; workers
    // finish in the order b, c, a.
    let mut c = BatchCollector::new(3);
    c.record_success(1, 80 * SCORE_SCALE);
    c.record_success(2, 90 * SCORE_SCALE);
    c.record_success(0, 100 * SCORE_SCALE);
    assert!(c.is_complete());
    let outcome = c.finish();
    assert_eq!(outcome.records.len(), 3);
    assert_eq!(outcome.failures.len(), 0);
    assert_eq!(outcome.records[0].frame, 0);
    assert_eq!(outcome.records[0].ssimulacra2, 100 * SCORE_SCALE);
    assert_eq!(outcome.records[1].frame, 1);
    assert_eq!(outcome.records[1].ssimulacra2, 80 * SCORE_SCALE);
    assert_eq!(outcome.records[2].frame, 2);
    assert_eq!(outcome.records[2].ssimulacra2, 90 * SCORE_SCALE);

    let st = summarize(&outcome.records).unwrap();
    assert_eq!(st.min, 80 * SCORE_SCALE);
    assert_eq!(st.max, 100 * SCORE_SCALE);
    assert_eq!(st.mean, 90 * SCORE_SCALE);
    assert_eq!(st.count, 3);
}

#[test]
fn missing_distorted_file_is_isolated() {
    // distorted/b.png is missing: its pair fails with a decode error,
    // a.png and c.png still score 100.0 and 90.0.
    let mut c = BatchCollector::new(3);
    c.record_success(0, 100 * SCORE_SCALE);
    c.record_failure(1, pair("b.png"), ScoreError::DecodeError);
    c.record_success(2, 90 * SCORE_SCALE);
    assert!(c.is_complete());
    let outcome = c.finish();

    assert_eq!(outcome.records.len(), 2);
    assert_eq!(outcome.records[0].frame, 0);
    assert_eq!(outcome.records[0].ssimulacra2, 100 * SCORE_SCALE);
    assert_eq!(outcome.records[1].frame, 2);
    assert_eq!(outcome.records[1].ssimulacra2, 90 * SCORE_SCALE);

    assert_eq!(outcome.failures.len(), 1);
    assert_eq!(outcome.failures[0].frame, 1);
    assert_eq!(outcome.failures[0].pair.identifier, "b.png");
    assert_eq!(outcome.failures[0].error, ScoreError::DecodeError);

    // Statistics cover the two successes only.
    let st = summarize(&outcome.records).unwrap();
    assert_eq!(st.min, 90 * SCORE_SCALE);
    assert_eq!(st.max, 100 * SCORE_SCALE);
    assert_eq!(st.mean, 95 * SCORE_SCALE);
    assert_eq!(st.count, 2);
}

#[test]
fn empty_batch_has_no_statistics() {
    let c = BatchCollector::new(0);
    assert!(c.is_complete());
    let outcome = c.finish();
    assert_eq!(outcome.records.len(), 0);
    assert_eq!(outcome.failures.len(), 0);
    assert_eq!(summarize(&outcome.records), Err(BatchError::EmptyResultSet));
}

#[test]
fn completion_order_does_not_change_output() {
    let orders: [[u32; 5]; 3] = [[0, 1, 2, 3, 4], [4, 3, 2, 1, 0], [2, 0, 4, 1, 3]];
    let scores: [i64; 5] = [5_000_000, -1_250_000, 0, 77_125_000, 3];
    let mut outputs = Vec::new();
    for order in &orders {
        let mut c = BatchCollector::new(5);
        for &frame in order {
            c.record_success(frame, scores[frame as usize]);
        }
        let outcome = c.finish();
        outputs.push(outcome.records);
    }
    assert_eq!(outputs[0], outputs[1]);
    assert_eq!(outputs[0], outputs[2]);
    for (i, r) in outputs[0].iter().enumerate() {
        assert_eq!(r.frame as usize, i);
        assert_eq!(r.ssimulacra2, scores[i]);
    }
}

#[test]
fn failure_does_not_disturb_other_records() {
    let mut c = BatchCollector::new(3);
    c.record_success(0, 12 * SCORE_SCALE);
    let before = c.records.clone();
    c.record_failure(1, pair("broken.png"), ScoreError::MetricError);
    assert_eq!(c.records, before);
    c.record_success(2, 34 * SCORE_SCALE);
    let outcome = c.finish();
    assert_eq!(outcome.records.len() + outcome.failures.len(), 3);
    assert_eq!(outcome.records[0].ssimulacra2, 12 * SCORE_SCALE);
    assert_eq!(outcome.records[1].ssimulacra2, 34 * SCORE_SCALE);
}

#[test]
fn all_failures_still_complete() {
    let mut c = BatchCollector::new(2);
    c.record_failure(0, pair("a.png"), ScoreError::ConversionError);
    c.record_failure(1, pair("b.png"), ScoreError::TimeoutError);
    assert!(c.is_complete());
    let outcome = c.finish();
    assert_eq!(outcome.records.len(), 0);
    assert_eq!(outcome.failures.len(), 2);
    assert_eq!(summarize(&outcome.records), Err(BatchError::EmptyResultSet));
}

#[test]
fn incomplete_batch_is_not_complete() {
    let mut c = BatchCollector::new(2);
    c.record_success(1, SCORE_SCALE);
    assert!(!c.is_complete());
}

#[test]
fn mean_rounds_toward_zero() {
    let mut c = BatchCollector::new(2);
    c.record_success(0, 1);
    c.record_success(1, 2);
    let st = summarize(&c.finish().records).unwrap();
    assert_eq!(st.mean, 1);

    let mut c = BatchCollector::new(2);
    c.record_success(0, -1);
    c.record_success(1, -2);
    let st = summarize(&c.finish().records).unwrap();
    assert_eq!(st.min, -2);
    assert_eq!(st.max, -1);
    assert_eq!(st.mean, -1);
}
