use coinflip::{
    chart_head_cells, csv_header, percent_hundredths, render_console, render_summary,
    AggregateCounts,
};

#[test]
fn header_line() {
    assert_eq!(csv_header(), b"Trial,Outcome,RandomValue\n".to_vec());
}

#[test]
fn percentages_round_to_hundredths() {
    assert_eq!(percent_hundredths(1, 3), 3333);
    assert_eq!(percent_hundredths(2, 3), 6667);
    assert_eq!(percent_hundredths(1, 8), 1250);
    assert_eq!(percent_hundredths(0, 5), 0);
    assert_eq!(percent_hundredths(5, 5), 10000);
}

#[test]
fn summary_file_layout() {
    let c = AggregateCounts { heads: 1, tails: 2 };
    let text = String::from_utf8(render_summary(&c, 3, 5000)).unwrap();
    assert_eq!(
        text,
        "Summary Report\n==============\nTotal Trials: 3\nBias: 50.00%\nHeads: 1 (33.33%)\nTails: 2 (66.67%)\n"
    );
}

#[test]
fn summary_bias_with_hundredths() {
    let c = AggregateCounts { heads: 700, tails: 300 };
    let text = String::from_utf8(render_summary(&c, 1000, 705)).unwrap();
    assert!(text.contains("Bias: 7.05%\n"));
    assert!(text.contains("Heads: 700 (70.00%)\n"));
    assert!(text.contains("Tails: 300 (30.00%)\n"));
}

#[test]
fn console_plain() {
    let c = AggregateCounts { heads: 3, tails: 1 };
    let text = String::from_utf8(render_console(&c, 4, 7500, false, false)).unwrap();
    assert_eq!(
        text,
        "\nSummary Report\n==============\nTotal Trials: 4\nBias: 75.00%\nHeads: 3 (75.00%)\nTails: 1 (25.00%)\n"
    );
}

#[test]
fn console_colored() {
    let c = AggregateCounts { heads: 3, tails: 1 };
    let text = String::from_utf8(render_console(&c, 4, 7500, true, false)).unwrap();
    assert!(text.ends_with("\x1b[32mHeads: 3 (75.00%)\x1b[0m\n\x1b[31mTails: 1 (25.00%)\x1b[0m\n"));
}

#[test]
fn console_chart() {
    let c = AggregateCounts { heads: 1, tails: 2 };
    assert_eq!(chart_head_cells(1, 3), 13);
    assert_eq!(chart_head_cells(3, 3), 40);
    assert_eq!(chart_head_cells(1, 80), 1);
    let text = String::from_utf8(render_console(&c, 3, 5000, false, true)).unwrap();
    let want = format!("\n[{}{}]\n", "\u{1F7E9}".repeat(13), "\u{1F7E5}".repeat(27));
    assert!(text.ends_with(&want));
}
