//! Core of a benchmarking client for a local text-generation service: the
//! request model and its wire encoding, the fold of one response stream into
//! a task outcome, batch collection, and aggregation of throughput figures.

mod client;
mod error;
mod generate;
mod stats;
mod task;

pub use client::{
    ends_with_separator, has_trailing_separator, url_joined, url_parsed, url_text, Ollama,
    DEFAULT_BASE_URL,
};
pub use error::OllamaError;
pub use generate::{
    decimal, digit_char, hex_digit, json_escape_char, json_quoted, options_json, request_body, request_json, GenerateOptions,
    RequestView, Stats, StreamChunk, StreamRequest, Timestamp,
};
pub use stats::{figure, Figure, lemma_totals_order_free, sum_of, totals_of, MeanStats, Ratio, Totals};
pub use task::{
    aggregate, answer_of, final_stats, first_error, fold_stream, fragments, lemma_answer_reassembles,
    lemma_batch_with_missing_stats, lemma_failure_does_not_count, lemma_missing_stats_fails, messages, run_batch, successes,
    task_result, FoldView, StreamItem, TaskFailure, TaskFold, TaskOutcome, TaskResult,
};
