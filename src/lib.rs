//! A biased coin-flip trial engine: configuration checks, the per-trial
//! draw, exact tallies, an explicit split of the trial indices among
//! workers, and the text of the record file and the summary report.

pub mod config;
pub mod counts;
pub mod engine;
pub mod report;
pub mod schedule;
pub mod text;
pub mod trial;

pub use config::{threshold_of, Config, ConfigError, MAX_BIAS_HUNDREDTHS};
pub use counts::AggregateCounts;
pub use engine::{run_sequential, TrialCursor};
pub use report::{
    chart_head_cells, csv_header, percent_hundredths, render_console, render_summary, CHART_WIDTH,
};
pub use schedule::{partition, TrialRange};
pub use text::decimal;
pub use trial::{classify, generate, Outcome, TrialDraw, TrialRecord, DRAW_RANGE};
