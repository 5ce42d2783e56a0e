use ollama::{aggregate, MeanStats, OllamaError, Ratio, Stats, TaskFailure, TaskOutcome, TaskResult};

const SEC: u64 = 1_000_000_000;

fn stats(pc: usize, pd: u64, ec: usize, ed: u64) -> Stats {
    Stats {
        context: vec![1, 2, 3],
        total_duration: pd + ed,
        load_duration: 0,
        prompt_eval_count: pc,
        prompt_eval_duration: pd,
        eval_count: ec,
        eval_duration: ed,
    }
}

fn ok(index: usize, st: Stats) -> TaskResult {
    Ok(TaskOutcome { index, answer: String::from("x"), stats: st })
}

fn failed(index: usize, error: OllamaError) -> TaskResult {
    Err(TaskFailure { index, error })
}

fn figures(m: &MeanStats) -> (usize, Ratio, Ratio, Option<Ratio>, Ratio, Ratio, Option<Ratio>) {
    (
        m.runs(),
        m.prompt_eval_count(),
        m.prompt_eval_duration(),
        m.prompt_eval_speed(),
        m.eval_count(),
        m.eval_duration(),
        m.eval_speed(),
    )
}

#[test]
fn aggregate_is_order_free() {
    let a = vec![stats(3, 5, 7, 11), stats(13, 17, 19, 23), stats(29, 31, 37, 41)];
    let b = vec![stats(29, 31, 37, 41), stats(3, 5, 7, 11), stats(13, 17, 19, 23)];
    let ma = MeanStats::new(&a).unwrap();
    let mb = MeanStats::new(&b).unwrap();
    assert_eq!(figures(&ma), figures(&mb));
}

#[test]
fn eval_speed_is_ratio_of_sums() {
    let group = vec![stats(0, 0, 10, SEC), stats(0, 0, 10, 10 * SEC)];
    let m = MeanStats::new(&group).unwrap();
    let speed = m.eval_speed().unwrap();
    assert_eq!(speed, Ratio { num: 20, den: 11 * SEC as u128 });
    let per_second = speed.num as f64 * 1e9 / speed.den as f64;
    assert!((per_second - 20.0 / 11.0).abs() < 1e-9);
    assert!((per_second - 5.5).abs() > 1.0);
}

#[test]
fn means_are_exact_fractions() {
    let group = vec![stats(4, 2 * SEC, 10, SEC), stats(6, 3 * SEC, 30, 3 * SEC)];
    let m = MeanStats::new(&group).unwrap();
    assert_eq!(m.runs(), 2);
    assert_eq!(m.prompt_eval_count(), Ratio { num: 10, den: 2 });
    assert_eq!(m.prompt_eval_duration(), Ratio { num: 5 * SEC as u128, den: 2 });
    assert_eq!(m.prompt_eval_speed(), Some(Ratio { num: 10, den: 5 * SEC as u128 }));
    assert_eq!(m.eval_count(), Ratio { num: 40, den: 2 });
    assert_eq!(m.eval_duration(), Ratio { num: 4 * SEC as u128, den: 2 });
    assert_eq!(m.eval_speed(), Some(Ratio { num: 40, den: 4 * SEC as u128 }));
}

#[test]
fn zero_time_has_no_speed() {
    let m = MeanStats::new(&[stats(5, 0, 5, 0)]).unwrap();
    assert_eq!(m.prompt_eval_speed(), None);
    assert_eq!(m.eval_speed(), None);
    assert_eq!(m.eval_count(), Ratio { num: 5, den: 1 });
}

#[test]
fn largest_figures_do_not_overflow() {
    let big = stats(usize::MAX, u64::MAX, usize::MAX, u64::MAX);
    let m = MeanStats::new(&[big.clone(), big]).unwrap();
    assert_eq!(m.eval_count().num, 2 * usize::MAX as u128);
    assert_eq!(m.eval_duration().num, 2 * u64::MAX as u128);
}

#[test]
fn aggregate_of_nothing_is_an_error() {
    assert!(matches!(MeanStats::new(&[]), Err(OllamaError::NoSuccessfulOutcome)));
    assert!(matches!(aggregate(&[]), Err(OllamaError::NoSuccessfulOutcome)));
    let only_failures = vec![failed(0, OllamaError::MissingStats), failed(1, OllamaError::MissingStats)];
    assert!(matches!(aggregate(&only_failures), Err(OllamaError::NoSuccessfulOutcome)));
}

#[test]
fn failures_are_left_out_of_the_aggregate() {
    let results = vec![
        ok(0, stats(1, SEC, 2, SEC)),
        failed(1, OllamaError::MissingStats),
        ok(2, stats(3, SEC, 4, SEC)),
    ];
    let m = aggregate(&results).unwrap();
    assert_eq!(m.runs(), 2);
    assert_eq!(m.prompt_eval_count(), Ratio { num: 4, den: 2 });
    assert_eq!(m.eval_speed(), Some(Ratio { num: 6, den: 2 * SEC as u128 }));
}
