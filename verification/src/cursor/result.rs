//! What the server answers a cursor with: a batch of results and, where
//! asked for, statistics of the query.

use vstd::prelude::*;
use crate::api::types::JsonString;

verus! {

/// Statistics of an executed query. The execution time arrives as a floating-point number of seconds; it
/// is kept as the bits of that number (`f64::to_bits`).
#[derive(Clone, Debug, PartialEq, Eq)]
pub struct CursorStatistics {
    execution_time: u64,
    filtered: u64,
    full_count: Option<u64>,
    http_requests: u64,
    scanned_full: u64,
    scanned_index: u64,
    writes_executed: u64,
    writes_ignored: u64,
}

/// The content of a `CursorStatistics`.
pub struct CursorStatisticsView {
    pub execution_time: u64,
    pub filtered: u64,
    pub full_count: Option<u64>,
    pub http_requests: u64,
    pub scanned_full: u64,
    pub scanned_index: u64,
    pub writes_executed: u64,
    pub writes_ignored: u64,
}

impl View for CursorStatistics {
    type V = CursorStatisticsView;

    closed spec fn view(&self) -> CursorStatisticsView {
        CursorStatisticsView {
            execution_time: self.execution_time,
            filtered: self.filtered,
            full_count: self.full_count,
            http_requests: self.http_requests,
            scanned_full: self.scanned_full,
            scanned_index: self.scanned_index,
            writes_executed: self.writes_executed,
            writes_ignored: self.writes_ignored,
        }
    }
}

impl CursorStatistics {
    pub fn new(execution_time: u64, filtered: u64, full_count: Option<u64>, http_requests: u64, scanned_full: u64,
        scanned_index: u64, writes_executed: u64, writes_ignored: u64) -> (r: Self)
        ensures
            r@ == (CursorStatisticsView { execution_time, filtered, full_count, http_requests, scanned_full,
                scanned_index, writes_executed, writes_ignored }),
    {
        CursorStatistics { execution_time, filtered, full_count, http_requests, scanned_full, scanned_index,
            writes_executed, writes_ignored }
    }

    /// The bits of the execution time in seconds.
    pub fn execution_time_bits(&self) -> (r: u64)
        ensures
            r == self@.execution_time,
    {
        self.execution_time
    }

    pub fn filtered(&self) -> (r: u64)
        ensures
            r == self@.filtered,
    {
        self.filtered
    }

    pub fn full_count(&self) -> (r: Option<u64>)
        ensures
            r == self@.full_count,
    {
        self.full_count
    }

    pub fn http_requests(&self) -> (r: u64)
        ensures
            r == self@.http_requests,
    {
        self.http_requests
    }

    pub fn scanned_full(&self) -> (r: u64)
        ensures
            r == self@.scanned_full,
    {
        self.scanned_full
    }

    pub fn scanned_index(&self) -> (r: u64)
        ensures
            r == self@.scanned_index,
    {
        self.scanned_index
    }

    pub fn writes_executed(&self) -> (r: u64)
        ensures
            r == self@.writes_executed,
    {
        self.writes_executed
    }

    pub fn writes_ignored(&self) -> (r: u64)
        ensures
            r == self@.writes_ignored,
    {
        self.writes_ignored
    }
}

/// The statistics and warnings of a query; each warning is kept as JSON text.
#[derive(Clone, Debug, PartialEq, Eq)]
pub struct CursorExtra {
    stats: CursorStatistics,
    warnings: Vec<JsonString>,
}

/// The content of a `CursorExtra`.
pub struct CursorExtraView {
    pub stats: CursorStatisticsView,
    pub warnings: Seq<Seq<char>>,
}

impl View for CursorExtra {
    type V = CursorExtraView;

    closed spec fn view(&self) -> CursorExtraView {
        CursorExtraView {
            stats: self.stats@,
            warnings: self.warnings@.map_values(|x: JsonString| x@),
        }
    }
}

impl CursorExtra {
    pub fn new(stats: CursorStatistics, warnings: Vec<JsonString>) -> (r: Self)
        ensures
            r@ == (CursorExtraView { stats: stats@, warnings: warnings@.map_values(|x: JsonString| x@) }),
    {
        CursorExtra { stats, warnings }
    }

    pub fn stats(&self) -> (r: &CursorStatistics)
        ensures
            r@ == self@.stats,
    {
        &self.stats
    }

    pub fn warnings(&self) -> (r: &[JsonString])
        ensures
            r@.map_values(|x: JsonString| x@) == self@.warnings,
    {
        self.warnings.as_slice()
    }
}

/// A batch of the results of a query, with the identifier of the cursor to fetch more by, if there
/// are more.
#[derive(Clone, Debug)]
pub struct Cursor<T> {
    id: Option<String>,
    result: Vec<T>,
    has_more: bool,
    count: Option<u64>,
    cached: bool,
    extra: Option<CursorExtra>,
}

/// The content of a `Cursor`.
pub struct CursorView<T> {
    pub id: Option<Seq<char>>,
    pub result: Seq<T>,
    pub has_more: bool,
    pub count: Option<u64>,
    pub cached: bool,
    pub extra: Option<CursorExtraView>,
}

impl<T> View for Cursor<T> {
    type V = CursorView<T>;

    closed spec fn view(&self) -> CursorView<T> {
        CursorView {
            id: self.id.deep_view(),
            result: self.result@,
            has_more: self.has_more,
            count: self.count,
            cached: self.cached,
            extra: match self.extra { Some(x) => Some(x@), None => None },
        }
    }
}

impl<T> Cursor<T> {
    pub fn new(id: Option<String>, result: Vec<T>, has_more: bool, count: Option<u64>, cached: bool,
        extra: Option<CursorExtra>) -> (r: Self)
        ensures
            r@ == (CursorView { id: id.deep_view(), result: result@, has_more, count, cached,
                extra: match extra { Some(x) => Some(x@), None => None } }),
    {
        Cursor { id, result, has_more, count, cached, extra }
    }

    pub fn id(&self) -> (r: Option<&String>)
        ensures
            r.deep_view() == self@.id,
    {
        self.id.as_ref()
    }

    pub fn result(&self) -> (r: &[T])
        ensures
            r@ == self@.result,
    {
        self.result.as_slice()
    }

    pub fn has_more(&self) -> (r: bool)
        ensures
            r == self@.has_more,
    {
        self.has_more
    }

    pub fn count(&self) -> (r: Option<u64>)
        ensures
            r == self@.count,
    {
        self.count
    }

    pub fn is_cached(&self) -> (r: bool)
        ensures
            r == self@.cached,
    {
        self.cached
    }

    pub fn extra(&self) -> (r: Option<&CursorExtra>)
        ensures
            match r { Some(x) => self@.extra == Some(x@), None => self@.extra is None },
    {
        self.extra.as_ref()
    }
}

/// What reading a cursor calls for next: a result to hand out, the next
/// batch to be fetched from the server by the cursor's identifier, or
/// nothing, since all results were read.
#[derive(Debug, PartialEq)]
pub enum CursorStep<T> {
    Item(T),
    FetchNextBatch(String),
    Done,
}

/// Reading the results of a query batch by batch: the results of the
/// current batch not yet handed out, and what the server said of the batches
/// still to come. Fetching a batch is left to the caller, who hands it back.
#[derive(Debug)]
pub struct CursorReader<T> {
    pending_reversed: Vec<T>,
    count: Option<u64>,
    has_more: bool,
    cursor_id: Option<String>,
}

/// The content of a `CursorReader`: the results still to be handed out, in
/// order.
pub struct CursorReaderView<T> {
    pub pending: Seq<T>,
    pub count: Option<u64>,
    pub has_more: bool,
    pub cursor_id: Option<Seq<char>>,
}

impl<T> View for CursorReader<T> {
    type V = CursorReaderView<T>;

    closed spec fn view(&self) -> CursorReaderView<T> {
        CursorReaderView {
            pending: self.pending_reversed@.reverse(),
            count: self.count,
            has_more: self.has_more,
            cursor_id: self.cursor_id.deep_view(),
        }
    }
}

/// The reading state right after a batch arrived: all its results pending.
pub open spec fn reader_of_batch<T>(cursor: CursorView<T>) -> CursorReaderView<T> {
    CursorReaderView { pending: cursor.result, count: cursor.count, has_more: cursor.has_more, cursor_id: cursor.id }
}

/// The elements of `v` in the opposite order.
fn reversed<T>(v: Vec<T>) -> (r: Vec<T>)
    ensures
        r@ == v@.reverse(),
{
    let mut v = v;
    let ghost orig = v@;
    let mut r: Vec<T> = Vec::new();
    while v.len() > 0
        invariant
            v@ == orig.take(v@.len() as int),
            v@.len() <= orig.len(),
            r@ == orig.skip(v@.len() as int).reverse(),
        decreases v@.len(),
    {
        let ghost n = v@.len();
        let x = v.pop().unwrap();
        r.push(x);
        proof {
            assert(v@ =~= orig.take(n - 1));
            assert(orig.skip(n - 1) =~= seq![orig[n - 1]] + orig.skip(n as int));
            assert(orig.skip(n - 1).reverse() =~= orig.skip(n as int).reverse().push(orig[n - 1]));
        }
    }
    proof {
        assert(orig.skip(0) =~= orig);
    }
    r
}

impl<T> CursorReader<T> {
    /// Starts reading with the first batch of a cursor.
    pub fn new(cursor: Cursor<T>) -> (r: Self)
        ensures
            r@ == reader_of_batch(cursor@),
    {
        let Cursor { id, result, has_more, count, cached: _, extra: _ } = cursor;
        let ghost items = result@;
        let pending_reversed = reversed(result);
        assert(pending_reversed@.reverse() =~= items);
        CursorReader { pending_reversed, count, has_more, cursor_id: id }
    }

    /// Hands out the next result of the current batch; where the batch is
    /// used up, asks for the next batch if the server has more and named the
    /// cursor, and else says that all results were read.
    pub fn next_step(&mut self) -> (r: CursorStep<T>)
        ensures
            old(self)@.pending.len() > 0 ==> r == CursorStep::Item(old(self)@.pending[0])
                && final(self)@ == (CursorReaderView { pending: old(self)@.pending.drop_first(), ..old(self)@ }),
            old(self)@.pending.len() == 0 && old(self)@.has_more && old(self)@.cursor_id is Some
                ==> (r matches CursorStep::FetchNextBatch(id) && Some(id@) == old(self)@.cursor_id)
                && final(self)@ == old(self)@,
            old(self)@.pending.len() == 0 && !(old(self)@.has_more && old(self)@.cursor_id is Some)
                ==> r == CursorStep::<T>::Done && final(self)@ == old(self)@,
    {
        let ghost pre = self.pending_reversed@;
        match self.pending_reversed.pop() {
            Some(x) => {
                proof {
                    assert(pre.reverse()[0] == x);
                    assert(self.pending_reversed@.reverse() =~= pre.reverse().drop_first());
                }
                CursorStep::Item(x)
            },
            None => {
                if self.has_more {
                    match &self.cursor_id {
                        Some(id) => CursorStep::FetchNextBatch(id.clone()),
                        None => CursorStep::Done,
                    }
                } else {
                    CursorStep::Done
                }
            },
        }
    }

    /// Takes in the next batch the server sent and hands out its first
    /// result, if it has one.
    pub fn receive_batch(&mut self, cursor: Cursor<T>) -> (r: Option<T>)
        ensures
            cursor@.result.len() > 0 ==> r == Some(cursor@.result[0])
                && final(self)@ == (CursorReaderView { pending: cursor@.result.drop_first(), ..reader_of_batch(cursor@) }),
            cursor@.result.len() == 0 ==> r is None && final(self)@ == reader_of_batch(cursor@),
    {
        *self = CursorReader::new(cursor);
        let ghost pre = self.pending_reversed@;
        let r = self.pending_reversed.pop();
        proof {
            if pre.len() > 0 {
                assert(pre.reverse()[0] == pre.last());
                assert(self.pending_reversed@.reverse() =~= pre.reverse().drop_first());
            } else {
                assert(self.pending_reversed@ =~= pre);
            }
        }
        r
    }

    /// The number of results of the current batch still pending, and the
    /// number of all results where the server told it.
    pub fn size_hint(&self) -> (r: (usize, Option<u64>))
        ensures
            r.0 == self@.pending.len(),
            r.1 == self@.count,
    {
        (self.pending_reversed.len(), self.count)
    }
}

} // verus!
