use ssimulacra2_rs::report::{render_csv, render_failures, render_summary, report_target};
use ssimulacra2_rs::structs::{FilePair, FrameResult, PairFailure, ScoreError,
    SummaryStatistics, SCORE_SCALE};

#[test]
fn csv_lists_rows_in_order() {
    let records = vec![
        FrameResult { frame: 0, ssimulacra2: 100 * SCORE_SCALE },
        FrameResult { frame: 1, ssimulacra2: 80 * SCORE_SCALE },
        FrameResult { frame: 2, ssimulacra2: 90 * SCORE_SCALE },
    ];
    let csv = render_csv(&records);
    assert_eq!(
        csv,
        "frame,ssimulacra2\n0,100.000000\n1,80.000000\n2,90.000000\n"
    );
}

#[test]
fn csv_of_no_records_is_just_the_header() {
    let csv = render_csv(&Vec::new());
    assert_eq!(csv, "frame,ssimulacra2\n");
}

#[test]
fn scores_render_with_six_fractional_digits() {
    let records = vec![
        FrameResult { frame: 0, ssimulacra2: -1_234_567 },
        FrameResult { frame: 1, ssimulacra2: 0 },
        FrameResult { frame: 2, ssimulacra2: 3 },
        FrameResult { frame: 3, ssimulacra2: -3 },
        FrameResult { frame: 10, ssimulacra2: 92_512_345 },
    ];
    let csv = render_csv(&records);
    assert_eq!(
        csv,
        "frame,ssimulacra2\n0,-1.234567\n1,0.000000\n2,0.000003\n3,-0.000003\n10,92.512345\n"
    );
}

#[test]
fn summary_prints_min_max_mean() {
    let st = SummaryStatistics {
        min: 80 * SCORE_SCALE,
        max: 100 * SCORE_SCALE,
        mean: 90 * SCORE_SCALE,
        count: 3,
    };
    let text = render_summary(&st);
    assert_eq!(text, "Min: 80.000000\nMax: 100.000000\nMean: 90.000000\n");
}

#[test]
fn failures_list_identifier_and_kind() {
    let failures = vec![
        PairFailure {
            frame: 1,
            pair: FilePair {
                identifier: "b.png".to_owned(),
                source_path: "source/b.png".to_owned(),
                distorted_path: "distorted/b.png".to_owned(),
            },
            error: ScoreError::DecodeError,
        },
        PairFailure {
            frame: 4,
            pair: FilePair {
                identifier: "e.png".to_owned(),
                source_path: "source/e.png".to_owned(),
                distorted_path: "distorted/e.png".to_owned(),
            },
            error: ScoreError::MetricError,
        },
    ];
    let text = render_failures(&failures);
    assert_eq!(text, "b.png: DecodeError\ne.png: MetricError\n");
}

#[test]
fn report_goes_into_a_directory_under_the_default_name() {
    assert_eq!(report_target("results", true), "results/ssimulacra2.csv");
    assert_eq!(report_target("scores.csv", false), "scores.csv");
}

#[test]
fn error_labels_name_the_kind() {
    assert_eq!(ScoreError::DecodeError.label(), "DecodeError");
    assert_eq!(ScoreError::ConversionError.label(), "ConversionError");
    assert_eq!(ScoreError::MetricError.label(), "MetricError");
    assert_eq!(ScoreError::TimeoutError.label(), "TimeoutError");
}
