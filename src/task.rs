use vstd::prelude::*;

use crate::error::OllamaError;
use crate::generate::{Stats, StreamChunk};
use crate::stats::{totals_of, MeanStats};

verus! {

/// One item of a response stream: a message, or the failure that ended it.
pub type StreamItem = Result<StreamChunk, OllamaError>;

/// A task that drained its stream and got final statistics.
#[derive(Debug)]
pub struct TaskOutcome {
    /// Position of the request in the submitted batch.
    pub index: usize,
    /// All text fragments of the stream, in arrival order.
    pub answer: String,
    pub stats: Stats,
}

/// A task that failed, with the position of its request in the batch.
#[derive(Debug)]
pub struct TaskFailure {
    pub index: usize,
    pub error: OllamaError,
}

/// The result of one task.
pub type TaskResult = Result<TaskOutcome, TaskFailure>;

/// The concatenation of the text fragments of `chunks`, in order.
pub open spec fn answer_of(chunks: Seq<StreamChunk>) -> Seq<char>
    decreases chunks.len(),
{
    if chunks.len() == 0 {
        Seq::empty()
    } else {
        answer_of(chunks.drop_last()) + chunks.last().response@
    }
}

/// The statistics a drained stream ends with: the latest that any of its
/// messages carried.
pub open spec fn final_stats(chunks: Seq<StreamChunk>) -> Option<Stats>
    decreases chunks.len(),
{
    if chunks.len() == 0 {
        None
    } else if chunks.last().stats is Some {
        chunks.last().stats
    } else {
        final_stats(chunks.drop_last())
    }
}

/// The messages of a run of stream items that holds no failure.
pub open spec fn messages(items: Seq<StreamItem>) -> Seq<StreamChunk> {
    items.map_values(|x: StreamItem| x->Ok_0)
}

/// Position of the first failure among `items`, or their number if none.
pub open spec fn first_error(items: Seq<StreamItem>) -> int
    decreases items.len(),
{
    if items.len() == 0 {
        0
    } else if items[0] is Err {
        0
    } else {
        1 + first_error(items.drop_first())
    }
}

/// What a task whose stream yielded `items` comes to. The stream is read up
/// to its first failure, which then fails the task; a stream that never
/// carried final statistics fails it too; otherwise the task succeeds with
/// all fragments in order and the final statistics.
pub open spec fn task_result(index: usize, items: Seq<StreamItem>, r: TaskResult) -> bool {
    let k = first_error(items);
    let chunks = messages(items.take(k));
    if k < items.len() {
        r matches Err(f) && f.index == index && items[k] == Err::<StreamChunk, OllamaError>(f.error)
    } else if final_stats(chunks) is None {
        r matches Err(f) && f.index == index && f.error is MissingStats
    } else {
        r matches Ok(o) && o.index == index && o.answer@ == answer_of(chunks) && Some(o.stats)
            == final_stats(chunks)
    }
}

/// The statistics of the successful results among `results`, in order.
pub open spec fn successes(results: Seq<TaskResult>) -> Seq<Stats>
    decreases results.len(),
{
    if results.len() == 0 {
        Seq::empty()
    } else {
        match results.last() {
            Ok(o) => successes(results.drop_last()).push(o.stats),
            Err(_) => successes(results.drop_last()),
        }
    }
}

proof fn lemma_first_error(items: Seq<StreamItem>, i: int)
    requires
        0 <= i <= items.len(),
        forall|j: int| 0 <= j < i ==> items[j] is Ok,
        i == items.len() || items[i] is Err,
    ensures
        first_error(items) == i,
    decreases i,
{
    if i > 0 {
        lemma_first_error(items.drop_first(), i - 1);
    }
}

/// The text fragments of `chunks`, in order.
pub open spec fn fragments(chunks: Seq<StreamChunk>) -> Seq<Seq<char>> {
    chunks.map_values(|c: StreamChunk| c.response@)
}

proof fn lemma_answer_is_flatten(chunks: Seq<StreamChunk>)
    ensures
        answer_of(chunks) == fragments(chunks).flatten_alt(),
    decreases chunks.len(),
{
    if chunks.len() > 0 {
        assert(fragments(chunks.drop_last()) =~= fragments(chunks).drop_last());
        lemma_answer_is_flatten(chunks.drop_last());
    } else {
        assert(fragments(chunks) =~= Seq::<Seq<char>>::empty());
    }
}

proof fn lemma_no_stats(chunks: Seq<StreamChunk>)
    requires
        forall|j: int| 0 <= j < chunks.len() ==> (#[trigger] chunks[j]).stats is None,
    ensures
        final_stats(chunks) is None,
    decreases chunks.len(),
{
    if chunks.len() > 0 {
        lemma_no_stats(chunks.drop_last());
    }
}

/// A well-formed stream that never carries final statistics fails its task
/// as a protocol violation, distinct from network and decode failures, and
/// attributed to the task's index.
pub proof fn lemma_missing_stats_fails(index: usize, items: Seq<StreamItem>, r: TaskResult)
    requires
        forall|j: int| 0 <= j < items.len() ==> items[j] is Ok,
        forall|j: int| 0 <= j < items.len() ==> (#[trigger] items[j])->Ok_0.stats is None,
        task_result(index, items, r),
    ensures
        r matches Err(f) && f.index == index && f.error is MissingStats,
{
    lemma_first_error(items, items.len() as int);
    assert(items.take(items.len() as int) =~= items);
    assert forall|j: int| 0 <= j < messages(items).len() implies (#[trigger] messages(
        items,
    )[j]).stats is None by {
        assert(items[j]->Ok_0.stats is None);
    }
    lemma_no_stats(messages(items));
}

/// A well-formed stream that carries final statistics makes its task succeed.
proof fn lemma_complete_stream_succeeds(index: usize, items: Seq<StreamItem>, r: TaskResult)
    requires
        forall|j: int| 0 <= j < items.len() ==> items[j] is Ok,
        final_stats(messages(items)) is Some,
        task_result(index, items, r),
    ensures
        r matches Ok(o) && o.index == index,
{
    lemma_first_error(items, items.len() as int);
    assert(items.take(items.len() as int) =~= items);
}

proof fn lemma_successes_all_ok(results: Seq<TaskResult>)
    requires
        forall|j: int| 0 <= j < results.len() ==> results[j] is Ok,
    ensures
        successes(results).len() == results.len(),
    decreases results.len(),
{
    if results.len() > 0 {
        lemma_successes_all_ok(results.drop_last());
    }
}

/// The text a successful task answers with is the concatenation, in order,
/// of the fragments its stream carried: when a service echoes the prompt
/// back in pieces, the answer is the prompt.
pub proof fn lemma_answer_reassembles(index: usize, items: Seq<StreamItem>, r: TaskResult)
    requires
        forall|j: int| 0 <= j < items.len() ==> items[j] is Ok,
        task_result(index, items, r),
        r is Ok,
    ensures
        r->Ok_0.answer@ == fragments(messages(items)).flatten(),
{
    lemma_first_error(items, items.len() as int);
    assert(items.take(items.len() as int) =~= items);
    lemma_answer_is_flatten(messages(items));
    fragments(messages(items)).lemma_flatten_and_flatten_alt_are_equivalent();
}

proof fn lemma_successes_remove(results: Seq<TaskResult>, i: int)
    requires
        0 <= i < results.len(),
        results[i] is Err,
    ensures
        successes(results) == successes(results.remove(i)),
    decreases results.len(),
{
    if i == results.len() - 1 {
        assert(results.remove(i) =~= results.drop_last());
    } else {
        let r = results.remove(i);
        assert(r.drop_last() =~= results.drop_last().remove(i));
        assert(r.last() == results.last());
        lemma_successes_remove(results.drop_last(), i);
    }
}

/// A failed task has no weight in the aggregate of its batch: the batch
/// aggregates exactly as it would without it, so the other tasks' outcomes
/// still count.
pub proof fn lemma_failure_does_not_count(results: Seq<TaskResult>, i: int)
    requires
        0 <= i < results.len(),
        results[i] is Err,
    ensures
        totals_of(successes(results)) == totals_of(successes(results.remove(i))),
{
    lemma_successes_remove(results, i);
}

/// In a batch where one stream never carries final statistics and every
/// other stream completes, that one task fails as a protocol violation under
/// its own index, every other task succeeds under its index, and the
/// aggregate is exactly that of the other tasks.
pub proof fn lemma_batch_with_missing_stats(
    streams: Seq<Seq<StreamItem>>,
    results: Seq<TaskResult>,
    k: int,
)
    requires
        results.len() == streams.len(),
        streams.len() <= usize::MAX,
        forall|i: int|
            0 <= i < results.len() ==> task_result(i as usize, #[trigger] streams[i], results[i]),
        0 <= k < streams.len(),
        forall|j: int| 0 <= j < streams[k].len() ==> streams[k][j] is Ok,
        forall|j: int| 0 <= j < streams[k].len() ==> (#[trigger] streams[k][j])->Ok_0.stats is None,
        forall|i: int|
            0 <= i < streams.len() && i != k ==> final_stats(messages(#[trigger] streams[i])) is Some,
        forall|i: int, j: int|
            0 <= i < streams.len() && i != k && 0 <= j < streams[i].len() ==> (#[trigger] streams[i][j]) is Ok,
    ensures
        results[k] matches Err(f) && f.index == k && f.error is MissingStats,
        forall|i: int|
            0 <= i < results.len() && i != k ==> ((#[trigger] results[i]) matches Ok(o) && o.index == i),
        successes(results).len() == results.len() - 1,
        totals_of(successes(results)) == totals_of(successes(results.remove(k))),
{
    lemma_missing_stats_fails(k as usize, streams[k], results[k]);
    assert forall|i: int| 0 <= i < results.len() && i != k implies ((#[trigger] results[i]) matches Ok(
        o,
    ) && o.index == i) by {
        assert(task_result(i as usize, streams[i], results[i]));
        lemma_complete_stream_succeeds(i as usize, streams[i], results[i]);
    }
    let rest = results.remove(k);
    assert forall|j: int| 0 <= j < rest.len() implies rest[j] is Ok by {
        if j < k {
            assert(rest[j] == results[j]);
        } else {
            assert(rest[j] == results[j + 1]);
        }
    }
    lemma_successes_all_ok(rest);
    lemma_successes_remove(results, k);
}

/// What a task knows while its stream is being drained.
pub ghost struct FoldView {
    pub index: usize,
    pub answer: Seq<char>,
    pub stats: Option<Stats>,
}

/// The fold of one response stream into the outcome of its task.
#[derive(Debug)]
pub struct TaskFold {
    index: usize,
    answer: String,
    stats: Option<Stats>,
}

impl View for TaskFold {
    type V = FoldView;

    closed spec fn view(&self) -> FoldView {
        FoldView { index: self.index, answer: self.answer@, stats: self.stats }
    }
}

impl TaskFold {
    /// The fold of task `index` before any message arrived.
    pub fn new(index: usize) -> (r: TaskFold)
        ensures
            r@ == (FoldView { index, answer: Seq::empty(), stats: None }),
    {
        TaskFold { index, answer: String::new(), stats: None }
    }

    /// Takes in the next message: its fragment is appended to the answer,
    /// and its statistics, where it carries any, are remembered.
    pub fn push(&mut self, chunk: StreamChunk)
        ensures
            final(self)@ == (FoldView {
                index: old(self)@.index,
                answer: old(self)@.answer + chunk.response@,
                stats: if chunk.stats is Some {
                    chunk.stats
                } else {
                    old(self)@.stats
                },
            }),
    {
        self.answer.append(chunk.response.as_str());
        if chunk.stats.is_some() {
            self.stats = chunk.stats;
        }
    }

    /// Ends the task once its stream is drained. A stream that never
    /// carried statistics is a protocol violation.
    pub fn finish(self) -> (r: TaskResult)
        ensures
            r is Ok <==> self@.stats is Some,
            r matches Ok(o) ==> o.index == self@.index && o.answer@ == self@.answer && Some(o.stats)
                == self@.stats,
            r matches Err(f) ==> f.index == self@.index && f.error is MissingStats,
    {
        match self.stats {
            Some(stats) => Ok(TaskOutcome { index: self.index, answer: self.answer, stats }),
            None => Err(TaskFailure { index: self.index, error: OllamaError::MissingStats }),
        }
    }

    /// Ends the task on a failure of its stream.
    pub fn fail(self, error: OllamaError) -> (r: TaskFailure)
        ensures
            r.index == self@.index,
            r.error == error,
    {
        TaskFailure { index: self.index, error }
    }
}

/// Folds the items of one drained stream into the result of task `index`.
pub fn fold_stream(index: usize, stream: Vec<StreamItem>) -> (r: TaskResult)
    ensures
        task_result(index, stream@, r),
{
    let ghost all = stream@;
    let n = stream.len();
    let mut items = stream;
    let mut fold = TaskFold::new(index);
    let mut i: usize = 0;
    assert(messages(all.take(0)) =~= Seq::<StreamChunk>::empty());
    while i < n
        invariant
            all == stream@,
            n == all.len(),
            i <= n,
            items@ == all.subrange(i as int, n as int),
            forall|j: int| 0 <= j < i ==> all[j] is Ok,
            fold@.index == index,
            fold@.answer == answer_of(messages(all.take(i as int))),
            fold@.stats == final_stats(messages(all.take(i as int))),
        decreases n - i,
    {
        let item = items.remove(0);
        assert(item == all[i as int]);
        match item {
            Ok(chunk) => {
                let ghost prev = messages(all.take(i as int));
                assert(messages(all.take(i + 1)) =~= prev.push(chunk));
                assert(prev.push(chunk).drop_last() =~= prev);
                fold.push(chunk);
                i = i + 1;
                assert(items@ =~= all.subrange(i as int, n as int));
            },
            Err(e) => {
                proof {
                    lemma_first_error(all, i as int);
                }
                let f = fold.fail(e);
                assert(all[i as int] == Err::<StreamChunk, OllamaError>(f.error));
                return Err(f);
            },
        }
    }
    proof {
        lemma_first_error(all, n as int);
        assert(all.take(n as int) =~= all);
    }
    fold.finish()
}

/// Folds every stream of a batch; result `i` is the task of stream `i`.
/// A failing task leaves the others untouched.
pub fn run_batch(streams: Vec<Vec<StreamItem>>) -> (r: Vec<TaskResult>)
    ensures
        r@.len() == streams@.len(),
        forall|i: int| 0 <= i < r@.len() ==> task_result(i as usize, #[trigger] streams@[i]@, r@[i]),
{
    let ghost all = streams@;
    let n = streams.len();
    let mut streams = streams;
    let mut out: Vec<TaskResult> = Vec::new();
    let mut i: usize = 0;
    while i < n
        invariant
            n == all.len(),
            i <= n,
            streams@ == all.subrange(i as int, n as int),
            out@.len() == i,
            forall|j: int| 0 <= j < i ==> task_result(j as usize, #[trigger] all[j]@, out@[j]),
        decreases n - i,
    {
        let items = streams.remove(0);
        assert(items == all[i as int]);
        let res = fold_stream(i, items);
        out.push(res);
        i = i + 1;
        assert(streams@ =~= all.subrange(i as int, n as int));
    }
    out
}

/// Aggregates the successful results of a batch; failures are left out and
/// do not stop the others from counting.
pub fn aggregate(results: &[TaskResult]) -> (r: Result<MeanStats, OllamaError>)
    ensures
        r is Err <==> successes(results@).len() == 0,
        r matches Err(e) ==> e is NoSuccessfulOutcome,
        r matches Ok(m) ==> m@ == totals_of(successes(results@)),
{
    let ghost s = results@;
    let n = results.len();
    let mut acc = MeanStats::zero();
    let mut i: usize = 0;
    let mut found = false;
    assert(s.take(0) =~= Seq::<TaskResult>::empty());
    while i < n
        invariant
            n == s.len(),
            s == results@,
            i <= n,
            acc@ == totals_of(successes(s.take(i as int))),
            acc@.runs <= i,
            acc.bounded(),
        decreases n - i,
    {
        assert(s.take(i + 1).drop_last() =~= s.take(i as int));
        match &results[i] {
            Ok(o) => {
                acc.add(&o.stats, Ghost(successes(s.take(i as int))));
            },
            Err(_) => {},
        }
        i = i + 1;
    }
    assert(s.take(n as int) =~= s);
    if acc.runs() == 0 {
        Err(OllamaError::NoSuccessfulOutcome)
    } else {
        Ok(acc)
    }
}

} // verus!
