use ollama::{
    aggregate, fold_stream, run_batch, OllamaError, Stats, StreamChunk, StreamItem, TaskFold,
    Timestamp,
};

fn final_stats() -> Stats {
    Stats {
        context: vec![7, 8],
        total_duration: 3_000,
        load_duration: 1_000,
        prompt_eval_count: 4,
        prompt_eval_duration: 1_000,
        eval_count: 2,
        eval_duration: 1_000,
    }
}

fn chunk(text: &str, stats: Option<Stats>) -> StreamChunk {
    StreamChunk {
        model: String::from("llama3"),
        created_at: Timestamp { secs: 1_700_000_000, nanos: 5 },
        response: String::from(text),
        stats,
    }
}

fn good_stream(parts: &[&str]) -> Vec<StreamItem> {
    let mut items: Vec<StreamItem> = Vec::new();
    for (i, p) in parts.iter().enumerate() {
        let last = i + 1 == parts.len();
        items.push(Ok(chunk(p, if last { Some(final_stats()) } else { None })));
    }
    items
}

fn decode_error() -> OllamaError {
    OllamaError::Decode(serde_json::from_str::<serde_json::Value>("{\"model\":").unwrap_err())
}

#[test]
fn fold_concatenates_fragments_in_order() {
    let r = fold_stream(5, good_stream(&["Hel", "lo, ", "world"])).unwrap();
    assert_eq!(r.index, 5);
    assert_eq!(r.answer, "Hello, world");
    assert_eq!(r.stats.eval_count, 2);
    assert_eq!(r.stats.context, vec![7, 8]);
}

#[test]
fn stream_without_final_stats_is_protocol_violation() {
    let items: Vec<StreamItem> = vec![Ok(chunk("a", None)), Ok(chunk("b", None))];
    let f = fold_stream(3, items).unwrap_err();
    assert_eq!(f.index, 3);
    assert!(matches!(f.error, OllamaError::MissingStats));
}

#[test]
fn stats_before_the_last_message_are_remembered() {
    let items: Vec<StreamItem> = vec![Ok(chunk("a", Some(final_stats()))), Ok(chunk("b", None))];
    let o = fold_stream(0, items).unwrap();
    assert_eq!(o.answer, "ab");
    assert_eq!(o.stats.eval_count, 2);
}

#[test]
fn latest_stats_win() {
    let mut later = final_stats();
    later.eval_count = 99;
    let items: Vec<StreamItem> = vec![
        Ok(chunk("a", Some(final_stats()))),
        Ok(chunk("b", Some(later))),
        Ok(chunk("c", None)),
    ];
    let o = fold_stream(0, items).unwrap();
    assert_eq!(o.stats.eval_count, 99);
}

#[test]
fn empty_stream_is_protocol_violation() {
    let f = fold_stream(1, Vec::new()).unwrap_err();
    assert_eq!(f.index, 1);
    assert!(matches!(f.error, OllamaError::MissingStats));
}

#[test]
fn decode_error_ends_the_task() {
    let items: Vec<StreamItem> = vec![Ok(chunk("a", None)), Err(decode_error()), Ok(chunk("b", Some(final_stats())))];
    let f = fold_stream(9, items).unwrap_err();
    assert_eq!(f.index, 9);
    assert!(matches!(f.error, OllamaError::Decode(_)));
}

#[test]
fn missing_stats_does_not_stop_others_from_aggregating() {
    let streams = vec![
        good_stream(&["x"]),
        vec![Ok(chunk("y", None))],
        good_stream(&["z"]),
    ];
    let results = run_batch(streams);
    assert!(results[0].is_ok());
    assert!(matches!(&results[1], Err(f) if f.index == 1 && matches!(f.error, OllamaError::MissingStats)));
    assert!(results[2].is_ok());
    let m = aggregate(&results).unwrap();
    assert_eq!(m.runs(), 2);
}

#[test]
fn batch_with_failing_task_keeps_indices() {
    let streams = vec![
        good_stream(&["zero"]),
        good_stream(&["o", "ne"]),
        vec![Ok(chunk("tw", None)), Err(decode_error())],
        good_stream(&["th", "r", "ee"]),
    ];
    let results = run_batch(streams);
    assert_eq!(results.len(), 4);
    let mut successes = Vec::new();
    let mut failures = Vec::new();
    for r in &results {
        match r {
            Ok(o) => successes.push((o.index, o.answer.clone())),
            Err(f) => failures.push(f.index),
        }
    }
    assert_eq!(
        successes,
        vec![(0, String::from("zero")), (1, String::from("one")), (3, String::from("three"))]
    );
    assert_eq!(failures, vec![2]);
    assert!(matches!(&results[2], Err(f) if matches!(f.error, OllamaError::Decode(_))));
    assert_eq!(aggregate(&results).unwrap().runs(), 3);
}

#[test]
fn task_fold_step_by_step() {
    let mut fold = TaskFold::new(4);
    fold.push(chunk("ab", None));
    fold.push(chunk("cd", Some(final_stats())));
    let o = fold.finish().unwrap();
    assert_eq!((o.index, o.answer.as_str()), (4, "abcd"));

    let mut fold = TaskFold::new(6);
    fold.push(chunk("ab", None));
    let f = fold.fail(OllamaError::MissingStats);
    assert_eq!(f.index, 6);
}

#[test]
fn errors_convert_by_cause() {
    let e = serde_json::from_str::<serde_json::Value>("[").unwrap_err();
    assert!(matches!(OllamaError::from(e), OllamaError::Decode(_)));
}
