//! The job queue and its admission control.

use vstd::prelude::*;
use crate::text::{
    all_digits, chars_of, decimal_value, lines_of, parse_number, rows, split_lines, string_of,
    trim_chars, trimmed,
};
use crate::tools::{format_proxy, proxy_uri};
use crate::types::{
    AdvOptions, DownloadItem, DownloadStatus, ItemView, OptionsView, Percent, ProxyProtocol,
    StatusView, FULL_THOUSANDTHS,
};

verus! {

/// The fewest downloads that may run at once.
pub const MIN_CONCURRENT: usize = 1;

/// The most downloads that may run at once.
pub const MAX_CONCURRENT: usize = 50;

/// The number of downloads that may run at once before anything was set.
pub const DEFAULT_CONCURRENT: usize = 3;

/// The time between two ticks, in milliseconds.
pub const TICK_MILLIS: u64 = 500;

/// How many jobs of `q` are downloading.
pub open spec fn count_downloading(q: Seq<ItemView>) -> nat
    decreases q.len(),
{
    if q.len() == 0 {
        0
    } else {
        count_downloading(q.drop_last()) + if q.last().status is Downloading {
            1nat
        } else {
            0nat
        }
    }
}

/// The position of the first waiting job of `q` at or after `from`, or the
/// length of `q` if none waits there.
pub open spec fn first_queued_from(q: Seq<ItemView>, from: int) -> int
    decreases q.len() - from,
{
    if from < 0 || from >= q.len() {
        q.len() as int
    } else if q[from].status is Queued {
        from
    } else {
        first_queued_from(q, from + 1)
    }
}

/// The position of the first waiting job of `q`, or the length of `q` if
/// none waits.
pub open spec fn first_queued(q: Seq<ItemView>) -> int {
    first_queued_from(q, 0)
}

/// The queue and its budget as plain values.
pub struct SchedulerView {
    pub queue: Seq<ItemView>,
    pub max_concurrent: nat,
    pub active: nat,
    pub pool: Seq<Seq<char>>,
    pub counter: nat,
    pub manual: Seq<char>,
    pub protocol: ProxyProtocol,
}

/// `limit` brought into the range of allowed budgets.
pub open spec fn clamp_concurrent(limit: nat) -> nat {
    if limit < MIN_CONCURRENT {
        MIN_CONCURRENT as nat
    } else if limit > MAX_CONCURRENT {
        MAX_CONCURRENT as nat
    } else {
        limit
    }
}

/// `observed`, capped at the whole download and never below `known`.
pub open spec fn advance(known: Percent, observed: Percent) -> Percent {
    let capped = if observed.thousandths > FULL_THOUSANDTHS {
        FULL_THOUSANDTHS
    } else {
        observed.thousandths
    };
    Percent { thousandths: if capped < known.thousandths { known.thousandths } else { capped } }
}

/// `observed` if it says something, else `known`.
pub open spec fn latest(known: Seq<char>, observed: Seq<char>) -> Seq<char> {
    if observed.len() > 0 {
        observed
    } else {
        known
    }
}

impl ItemView {
    /// The job once it has been given a slot. A proxy that was chosen
    /// replaces the one it had; with none chosen it keeps what it had.
    pub open spec fn admitted(self, proxy: Option<Seq<char>>) -> ItemView {
        ItemView {
            status: StatusView::Downloading,
            assigned_proxy: if proxy is Some { proxy } else { self.assigned_proxy },
            ..self
        }
    }

    /// The job after a progress observation. A job that has ended is left
    /// as it is.
    pub open spec fn observed(self, progress: Percent, speed: Seq<char>, size: Seq<char>) -> ItemView {
        if self.status.is_terminal() {
            self
        } else {
            ItemView {
                progress: advance(self.progress, progress),
                speed: latest(self.speed, speed),
                total_size: latest(self.total_size, size),
                ..self
            }
        }
    }

    /// The job after its download succeeded.
    pub open spec fn completed(self) -> ItemView {
        ItemView {
            status: StatusView::Finished,
            progress: Percent { thousandths: FULL_THOUSANDTHS },
            speed: "Done"@,
            ..self
        }
    }

    /// The job after its download failed for `reason`.
    pub open spec fn broken(self, reason: Seq<char>) -> ItemView {
        ItemView { status: StatusView::Failed(reason), speed: "Failed"@, ..self }
    }

    /// The job after it was cancelled.
    pub open spec fn cancelled(self) -> ItemView {
        ItemView { status: StatusView::Cancelled, ..self }
    }

    /// The job after it was sent back to wait for a slot.
    pub open spec fn requeued(self) -> ItemView {
        ItemView { status: StatusView::Queued, progress: Percent { thousandths: 0 }, ..self }
    }
}

impl SchedulerView {
    /// What holds of every scheduler: the budget is in range, the active
    /// count is the number of downloading jobs, each job's id is its place
    /// in the queue, and no progress exceeds the whole.
    pub open spec fn wf(self) -> bool {
        &&& MIN_CONCURRENT <= self.max_concurrent <= MAX_CONCURRENT
        &&& self.active == count_downloading(self.queue)
        &&& self.counter <= usize::MAX
        &&& forall|i: int|
            0 <= i < self.queue.len() ==> (#[trigger] self.queue[i]).id == i
                && self.queue[i].progress.in_range()
    }

    /// An empty queue with the default budget and no proxies.
    pub open spec fn initial() -> SchedulerView {
        SchedulerView {
            queue: Seq::empty(),
            max_concurrent: DEFAULT_CONCURRENT as nat,
            active: 0,
            pool: Seq::empty(),
            counter: 0,
            manual: Seq::empty(),
            protocol: ProxyProtocol::Socks5,
        }
    }

    /// Whether `id` names a job of the queue.
    pub open spec fn has_job(self, id: usize) -> bool {
        id < self.queue.len()
    }

    /// Whether the manual proxy is to be used.
    pub open spec fn uses_manual(self) -> bool {
        self.manual.len() > 0
    }

    /// Whether the next admission takes its proxy from the pool.
    pub open spec fn uses_pool(self) -> bool {
        !self.uses_manual() && self.pool.len() > 0
    }

    /// The proxy that the next admitted job gets: the manual proxy if one is
    /// set, else the pool's entry at the rotation counter, else none.
    pub open spec fn next_proxy(self) -> Option<Seq<char>> {
        if self.uses_manual() {
            Some(proxy_uri(self.manual, self.protocol.scheme()))
        } else if self.uses_pool() {
            Some(
                proxy_uri(
                    self.pool[(self.counter % self.pool.len()) as int],
                    self.protocol.scheme(),
                ),
            )
        } else {
            None
        }
    }

    /// The rotation counter after one more use; it starts over after the
    /// largest machine number.
    pub open spec fn counter_after_use(self) -> nat {
        if self.counter >= usize::MAX {
            0
        } else {
            self.counter + 1
        }
    }

    /// Whether a tick admits a job: a slot is free and a job waits.
    pub open spec fn can_admit(self) -> bool {
        self.active < self.max_concurrent && first_queued(self.queue) < self.queue.len()
    }

    /// The scheduler after one tick: if a slot is free, the first waiting
    /// job starts downloading with the next proxy; else nothing changes.
    pub open spec fn tick(self) -> SchedulerView {
        if self.can_admit() {
            let at = first_queued(self.queue);
            SchedulerView {
                queue: self.queue.update(at, self.queue[at].admitted(self.next_proxy())),
                active: self.active + 1,
                counter: if self.uses_pool() { self.counter_after_use() } else { self.counter },
                ..self
            }
        } else {
            self
        }
    }

    /// The scheduler with one more job at the end of the queue.
    pub open spec fn enqueue(self, url: Seq<char>, title: Seq<char>, options: OptionsView) -> SchedulerView {
        SchedulerView {
            queue: self.queue.push(ItemView::fresh(self.queue.len() as usize, url, title, options)),
            ..self
        }
    }

    /// The scheduler with job `id` replaced by `item` and the active count
    /// corrected by `freed` slots.
    pub open spec fn with_job(self, id: usize, item: ItemView, freed: nat) -> SchedulerView {
        SchedulerView {
            queue: self.queue.update(id as int, item),
            active: (self.active - freed) as nat,
            ..self
        }
    }

    /// The number of slots that job `id` gives back when it stops
    /// downloading.
    pub open spec fn slot_of(self, id: usize) -> nat {
        if self.has_job(id) && self.queue[id as int].status is Downloading {
            1
        } else {
            0
        }
    }

    /// The scheduler after a progress observation for job `id`.
    pub open spec fn progress(self, id: usize, progress: Percent, speed: Seq<char>, size: Seq<char>) -> SchedulerView {
        if self.has_job(id) {
            self.with_job(id, self.queue[id as int].observed(progress, speed, size), 0)
        } else {
            self
        }
    }

    /// The scheduler after job `id` finished.
    pub open spec fn finished(self, id: usize) -> SchedulerView {
        if self.has_job(id) {
            self.with_job(id, self.queue[id as int].completed(), self.slot_of(id))
        } else {
            self
        }
    }

    /// The scheduler after job `id` failed for `reason`.
    pub open spec fn failed(self, id: usize, reason: Seq<char>) -> SchedulerView {
        if self.has_job(id) {
            self.with_job(id, self.queue[id as int].broken(reason), self.slot_of(id))
        } else {
            self
        }
    }

    /// The scheduler after job `id` was cancelled.
    pub open spec fn cancel(self, id: usize) -> SchedulerView {
        if self.has_job(id) {
            self.with_job(id, self.queue[id as int].cancelled(), self.slot_of(id))
        } else {
            self
        }
    }

    /// The scheduler after job `id` was sent back to wait.
    pub open spec fn retry(self, id: usize) -> SchedulerView {
        if self.has_job(id) {
            self.with_job(id, self.queue[id as int].requeued(), self.slot_of(id))
        } else {
            self
        }
    }

    /// The scheduler with the budget set to `limit`, brought into range.
    pub open spec fn with_limit(self, limit: nat) -> SchedulerView {
        SchedulerView { max_concurrent: clamp_concurrent(limit), ..self }
    }

    /// The scheduler with the budget that `text` writes, brought into
    /// range; unchanged where `text` writes no number.
    pub open spec fn with_limit_text(self, text: Seq<char>) -> SchedulerView {
        match limit_of_text(text) {
            Some(limit) => self.with_limit(limit),
            None => self,
        }
    }
}

/// The number that `text` writes as a budget: `text` must be digits only,
/// at least one, and the number must fit the machine.
pub open spec fn limit_of_text(text: Seq<char>) -> Option<nat> {
    if text.len() > 0 && all_digits(text) && decimal_value(text) <= usize::MAX {
        Some(decimal_value(text))
    } else {
        None
    }
}

/// The proxies that `text` lists: its lines without the white space around
/// them, empty ones left out.
pub open spec fn pool_of_text(text: Seq<char>) -> Seq<Seq<char>> {
    lines_of(text).map_values(|l: Seq<char>| trimmed(l)).filter(|l: Seq<char>| l.len() > 0)
}

/// The ids of the jobs of `q` that are downloading, in queue order.
pub open spec fn downloading_ids(q: Seq<ItemView>) -> Seq<usize>
    decreases q.len(),
{
    if q.len() == 0 {
        Seq::empty()
    } else if q.last().status is Downloading {
        downloading_ids(q.drop_last()).push(q.last().id)
    } else {
        downloading_ids(q.drop_last())
    }
}

/// Replacing one job changes the number of downloading jobs by what that
/// job gives up and takes.
pub proof fn lemma_count_update(q: Seq<ItemView>, i: int, item: ItemView)
    requires
        0 <= i < q.len(),
    ensures
        count_downloading(q.update(i, item)) + (if q[i].status is Downloading {
            1nat
        } else {
            0nat
        }) == count_downloading(q) + (if item.status is Downloading {
            1nat
        } else {
            0nat
        }),
    decreases q.len(),
{
    let r = q.update(i, item);
    if i == q.len() - 1 {
        assert(r.drop_last() =~= q.drop_last());
    } else {
        lemma_count_update(q.drop_last(), i, item);
        assert(r.drop_last() =~= q.drop_last().update(i, item));
    }
}

/// A job added at the end that does not download leaves the count as it is.
pub proof fn lemma_count_push(q: Seq<ItemView>, item: ItemView)
    ensures
        count_downloading(q.push(item)) == count_downloading(q) + (if item.status is Downloading {
            1nat
        } else {
            0nat
        }),
{
    assert(q.push(item).drop_last() =~= q);
}

/// What `first_queued_from` finds: nothing waits between `from` and the
/// position found, and a job waits at that position unless it is the end.
pub proof fn lemma_first_queued_from(q: Seq<ItemView>, from: int)
    requires
        0 <= from <= q.len(),
    ensures
        from <= first_queued_from(q, from) <= q.len(),
        forall|j: int| from <= j < first_queued_from(q, from) ==> !(q[j].status is Queued),
        first_queued_from(q, from) < q.len() ==> q[first_queued_from(q, from)].status is Queued,
    decreases q.len() - from,
{
    if from < q.len() && !(q[from].status is Queued) {
        lemma_first_queued_from(q, from + 1);
    }
}

/// The position `at` is the one that `first_queued` finds if nothing waits
/// before it and a job waits there, or it is the end.
pub proof fn lemma_first_queued_is(q: Seq<ItemView>, at: int)
    requires
        0 <= at <= q.len(),
        forall|j: int| 0 <= j < at ==> !(q[j].status is Queued),
        at < q.len() ==> q[at].status is Queued,
    ensures
        first_queued(q) == at,
{
    lemma_first_queued_from(q, 0);
}

/// The texts of a vector of strings, in order.
pub open spec fn texts(v: Seq<String>) -> Seq<Seq<char>> {
    Seq::new(v.len(), |i: int| v[i]@)
}

/// The jobs of a vector as plain values, in order.
pub open spec fn items(v: Seq<DownloadItem>) -> Seq<ItemView> {
    Seq::new(v.len(), |i: int| v[i]@)
}

/// The job queue with its concurrency budget and its proxies.
#[derive(Debug)]
pub struct Scheduler {
    queue: Vec<DownloadItem>,
    max_concurrent: usize,
    active_downloads: usize,
    proxy_list: Vec<String>,
    proxy_counter: usize,
    manual_proxy: String,
    selected_proxy_proto: ProxyProtocol,
}

impl View for Scheduler {
    type V = SchedulerView;

    closed spec fn view(&self) -> SchedulerView {
        SchedulerView {
            queue: items(self.queue@),
            max_concurrent: self.max_concurrent as nat,
            active: self.active_downloads as nat,
            pool: texts(self.proxy_list@),
            counter: self.proxy_counter as nat,
            manual: self.manual_proxy@,
            protocol: self.selected_proxy_proto,
        }
    }
}

impl Scheduler {
    /// Whether the scheduler is in a state that its operations keep up.
    pub open spec fn wf(&self) -> bool {
        self@.wf()
    }

    /// An empty queue with the default budget and no proxies.
    pub fn new() -> (r: Scheduler)
        ensures
            r.wf(),
            r@ == SchedulerView::initial(),
    {
        let r = Scheduler {
            queue: Vec::new(),
            max_concurrent: DEFAULT_CONCURRENT,
            active_downloads: 0,
            proxy_list: Vec::new(),
            proxy_counter: 0,
            manual_proxy: String::new(),
            selected_proxy_proto: ProxyProtocol::Socks5,
        };
        assert(r@.queue =~= Seq::empty());
        assert(r@.pool =~= Seq::empty());
        r
    }

    /// Adds a waiting job at the end of the queue and returns its id.
    pub fn enqueue(&mut self, url: String, title: String, options: AdvOptions) -> (id: usize)
        requires
            old(self).wf(),
        ensures
            final(self).wf(),
            final(self)@ == old(self)@.enqueue(url@, title@, options@),
            id == old(self)@.queue.len(),
    {
        let id = self.queue.len();
        let item = DownloadItem::new(id, url, title, options);
        proof {
            lemma_count_push(self@.queue, item@);
        }
        self.queue.push(item);
        assert(self@.queue =~= old(self)@.queue.push(item@));
        assert(self@.pool =~= old(self)@.pool);
        id
    }

    /// The jobs, in queue order.
    pub fn queue(&self) -> (r: &Vec<DownloadItem>)
        ensures
            items(r@) == self@.queue,
    {
        &self.queue
    }

    /// The job with the given id, if there is one.
    pub fn job(&self, id: usize) -> (r: Option<&DownloadItem>)
        requires
            self.wf(),
        ensures
            r is Some == self@.has_job(id),
            r is Some ==> r->0@ == self@.queue[id as int],
    {
        if id < self.queue.len() {
            Some(&self.queue[id])
        } else {
            None
        }
    }

    /// The id that the next enqueued job gets.
    pub fn next_id(&self) -> (r: usize)
        ensures
            r == self@.queue.len(),
    {
        self.queue.len()
    }

    /// The number of downloads that may run at once.
    pub fn max_concurrent(&self) -> (r: usize)
        ensures
            r == self@.max_concurrent,
    {
        self.max_concurrent
    }

    /// The number of downloads that run.
    pub fn active_downloads(&self) -> (r: usize)
        ensures
            r == self@.active,
    {
        self.active_downloads
    }

    /// The proxy pool.
    pub fn proxy_list(&self) -> (r: &Vec<String>)
        ensures
            texts(r@) == self@.pool,
    {
        &self.proxy_list
    }

    /// How often a proxy was drawn from the pool.
    pub fn proxy_counter(&self) -> (r: usize)
        ensures
            r == self@.counter,
    {
        self.proxy_counter
    }

    /// The manual proxy; empty if none is set.
    pub fn manual_proxy(&self) -> (r: &String)
        ensures
            r@ == self@.manual,
    {
        &self.manual_proxy
    }

    /// The protocol that proxies are addressed with.
    pub fn selected_proxy_proto(&self) -> (r: ProxyProtocol)
        ensures
            r == self@.protocol,
    {
        self.selected_proxy_proto
    }

    /// The ids of the jobs that are downloading, in queue order: the jobs
    /// that a process is to run for.
    pub fn downloading(&self) -> (r: Vec<usize>)
        ensures
            r@ == downloading_ids(self@.queue),
    {
        let mut out: Vec<usize> = Vec::new();
        let mut i: usize = 0;
        assert(self@.queue.subrange(0, 0) =~= Seq::empty());
        while i < self.queue.len()
            invariant
                i <= self.queue.len(),
                out@ == downloading_ids(self@.queue.subrange(0, i as int)),
            decreases self.queue.len() - i,
        {
            proof {
                let head = self@.queue.subrange(0, i + 1);
                assert(head.drop_last() =~= self@.queue.subrange(0, i as int));
                assert(head.last() == self.queue@[i as int]@);
            }
            if self.queue[i].status.is_downloading() {
                out.push(self.queue[i].id);
            }
            i += 1;
        }
        assert(self@.queue.subrange(0, self.queue.len() as int) =~= self@.queue);
        out
    }

    /// Sets the budget to `limit`, brought into the allowed range. Running
    /// jobs are left alone.
    pub fn set_max_concurrent(&mut self, limit: usize)
        requires
            old(self).wf(),
        ensures
            final(self).wf(),
            final(self)@ == old(self)@.with_limit(limit as nat),
    {
        self.max_concurrent = if limit < MIN_CONCURRENT {
            MIN_CONCURRENT
        } else if limit > MAX_CONCURRENT {
            MAX_CONCURRENT
        } else {
            limit
        };
    }

    /// Sets the budget to the number that `text` writes, brought into the
    /// allowed range; a text that writes no number is not applied. Returns
    /// whether the text was applied.
    pub fn set_max_concurrent_text(&mut self, text: &str) -> (applied: bool)
        requires
            old(self).wf(),
        ensures
            final(self).wf(),
            final(self)@ == old(self)@.with_limit_text(text@),
            applied == limit_of_text(text@) is Some,
    {
        match parse_number(&chars_of(text)) {
            Some(limit) => {
                self.set_max_concurrent(limit);
                true
            },
            None => false,
        }
    }

    /// Sets the manual proxy; an empty text sets none.
    pub fn set_manual_proxy(&mut self, proxy: String)
        requires
            old(self).wf(),
        ensures
            final(self).wf(),
            final(self)@ == (SchedulerView { manual: proxy@, ..old(self)@ }),
    {
        self.manual_proxy = proxy;
    }

    /// Sets the protocol that proxies are addressed with.
    pub fn set_proxy_protocol(&mut self, protocol: ProxyProtocol)
        requires
            old(self).wf(),
        ensures
            final(self).wf(),
            final(self)@ == (SchedulerView { protocol, ..old(self)@ }),
    {
        self.selected_proxy_proto = protocol;
    }

    /// Replaces the proxy pool by the proxies that `text` lists, one to a
    /// line. The rotation counter goes on from where it is.
    pub fn load_proxy_list(&mut self, text: &str)
        requires
            old(self).wf(),
        ensures
            final(self).wf(),
            final(self)@ == (SchedulerView { pool: pool_of_text(text@), ..old(self)@ }),
    {
        let ghost strip = |l: Seq<char>| trimmed(l);
        let ghost keep = |l: Seq<char>| l.len() > 0;
        let lines = split_lines(&chars_of(text));
        let mut pool: Vec<String> = Vec::new();
        let mut i: usize = 0;
        proof {
            assert(rows(lines@).subrange(0, 0).map_values(strip) =~= Seq::<Seq<char>>::empty());
            assert(texts(pool@) =~= Seq::<Seq<char>>::empty());
        }
        while i < lines.len()
            invariant
                i <= lines.len(),
                strip == |l: Seq<char>| trimmed(l),
                keep == |l: Seq<char>| l.len() > 0,
                texts(pool@) == rows(lines@).subrange(0, i as int).map_values(strip).filter(keep),
            decreases lines.len() - i,
        {
            let entry = trim_chars(&lines[i]);
            proof {
                let head = rows(lines@).subrange(0, i as int).map_values(strip);
                let next = rows(lines@).subrange(0, i + 1).map_values(strip);
                assert(next =~= head.push(entry@));
                head.lemma_filter_push(entry@, keep);
            }
            if entry.len() > 0 {
                let ghost old_pool = pool@;
                pool.push(string_of(&entry));
                assert(texts(pool@) =~= texts(old_pool).push(entry@));
            }
            i += 1;
        }
        assert(rows(lines@).subrange(0, lines.len() as int) =~= rows(lines@));
        self.proxy_list = pool;
    }

    /// The proxy for the job that is admitted next, taken as `next_proxy`
    /// says; a proxy from the pool moves the rotation counter on.
    fn take_proxy(&mut self) -> (r: Option<String>)
        requires
            old(self).wf(),
        ensures
            r is Some == old(self)@.next_proxy() is Some,
            r is Some ==> r->0@ == old(self)@.next_proxy()->0,
            final(self)@ == (SchedulerView {
                counter: if old(self)@.uses_pool() {
                    old(self)@.counter_after_use()
                } else {
                    old(self)@.counter
                },
                ..old(self)@
            }),
    {
        if !self.manual_proxy.as_str().is_empty() {
            Some(format_proxy(self.manual_proxy.as_str(), self.selected_proxy_proto))
        } else if self.proxy_list.len() > 0 {
            let count = self.proxy_counter;
            self.proxy_counter = if count == usize::MAX {
                0
            } else {
                count + 1
            };
            let at = count % self.proxy_list.len();
            assert(self@.pool[at as int] == self.proxy_list@[at as int]@);
            Some(format_proxy(self.proxy_list[at].as_str(), self.selected_proxy_proto))
        } else {
            None
        }
    }

    /// The position of the first waiting job, or the queue's length.
    fn find_queued(&self) -> (at: usize)
        ensures
            at == first_queued(self@.queue),
            at <= self@.queue.len(),
    {
        let mut i: usize = 0;
        while i < self.queue.len()
            invariant
                i <= self.queue.len(),
                forall|j: int| 0 <= j < i ==> !(self@.queue[j].status is Queued),
            decreases self.queue.len() - i,
        {
            if self.queue[i].status.is_queued() {
                proof {
                    lemma_first_queued_is(self@.queue, i as int);
                }
                return i;
            }
            i += 1;
        }
        proof {
            lemma_first_queued_is(self@.queue, i as int);
        }
        i
    }

    /// One scheduling step: if a slot is free, the first waiting job starts
    /// downloading with the next proxy. Returns the id of the job that was
    /// admitted, if one was.
    pub fn tick(&mut self) -> (admitted: Option<usize>)
        requires
            old(self).wf(),
        ensures
            final(self).wf(),
            final(self)@ == old(self)@.tick(),
            admitted == if old(self)@.can_admit() {
                Some(first_queued(old(self)@.queue) as usize)
            } else {
                None
            },
    {
        if self.active_downloads >= self.max_concurrent {
            return None;
        }
        let at = self.find_queued();
        if at >= self.queue.len() {
            return None;
        }
        let proxy = self.take_proxy();
        let ghost mid = self@;
        let item = &mut self.queue[at];
        item.status = DownloadStatus::Downloading;
        if let Some(p) = proxy {
            item.assigned_proxy = Some(p);
        }
        self.active_downloads += 1;
        proof {
            let before = old(self)@;
            let next = before.queue[at as int].admitted(before.next_proxy());
            assert(mid.queue == before.queue);
            assert(self@.queue =~= before.queue.update(at as int, next));
            assert(self@.pool =~= before.pool);
            lemma_first_queued_from(before.queue, 0);
            lemma_count_update(before.queue, at as int, next);
            assert forall|i: int| 0 <= i < self@.queue.len() implies (#[trigger] self@.queue[i]).id
                == i && self@.queue[i].progress.in_range() by {
                assert(before.queue[i].id == i);
            }
        }
        Some(at)
    }

    /// Takes in a progress observation for job `id`: the progress moves up
    /// to what was observed, at most to the whole, and a speed or size that
    /// says something replaces the one known. An unknown id and a job that
    /// has ended change nothing.
    pub fn report_progress(&mut self, id: usize, progress: Percent, speed: String, size: String)
        requires
            old(self).wf(),
        ensures
            final(self).wf(),
            final(self)@ == old(self)@.progress(id, progress, speed@, size@),
    {
        if id >= self.queue.len() {
            return ;
        }
        if self.queue[id].status.is_terminal() {
            assert(self@.queue =~= self@.queue.update(id as int, self@.queue[id as int]));
            return ;
        }
        let item = &mut self.queue[id];
        let capped = if progress.thousandths > FULL_THOUSANDTHS {
            FULL_THOUSANDTHS
        } else {
            progress.thousandths
        };
        if capped > item.progress.thousandths {
            item.progress = Percent { thousandths: capped };
        }
        if !speed.as_str().is_empty() {
            item.speed = speed;
        }
        if !size.as_str().is_empty() {
            item.total_size = size;
        }
        proof {
            let before = old(self)@;
            let next = before.queue[id as int].observed(progress, speed@, size@);
            assert(self@.queue =~= before.queue.update(id as int, next));
            assert(self@.pool =~= before.pool);
            lemma_count_update(before.queue, id as int, next);
            assert forall|i: int| 0 <= i < self@.queue.len() implies (#[trigger] self@.queue[i]).id
                == i && self@.queue[i].progress.in_range() by {
                assert(before.queue[i].id == i);
            }
        }
    }

    /// Gives back the slot of job `id` if it holds one.
    fn release_slot(&mut self, id: usize)
        requires
            old(self).wf(),
            id < old(self)@.queue.len(),
        ensures
            final(self)@ == (SchedulerView {
                active: (old(self)@.active - old(self)@.slot_of(id)) as nat,
                ..old(self)@
            }),
            old(self)@.active >= old(self)@.slot_of(id),
    {
        if self.queue[id].status.is_downloading() {
            proof {
                let q = self@.queue;
                lemma_count_update(q, id as int, q[id as int].cancelled());
            }
            self.active_downloads = self.active_downloads - 1;
        }
    }

    /// Takes in the success of job `id`: it is finished, complete, and its
    /// slot is free. An unknown id changes nothing.
    pub fn report_finished(&mut self, id: usize)
        requires
            old(self).wf(),
        ensures
            final(self).wf(),
            final(self)@ == old(self)@.finished(id),
    {
        if id >= self.queue.len() {
            return ;
        }
        self.release_slot(id);
        let item = &mut self.queue[id];
        item.status = DownloadStatus::Finished;
        item.progress = Percent::full();
        item.speed = "Done".to_owned();
        proof {
            let before = old(self)@;
            let next = before.queue[id as int].completed();
            assert(self@.queue =~= before.queue.update(id as int, next));
            assert(self@.pool =~= before.pool);
            lemma_count_update(before.queue, id as int, next);
            assert forall|i: int| 0 <= i < self@.queue.len() implies (#[trigger] self@.queue[i]).id
                == i && self@.queue[i].progress.in_range() by {
                assert(before.queue[i].id == i);
            }
        }
    }

    /// Takes in the failure of job `id` for `reason`: it is failed and its
    /// slot is free. An unknown id changes nothing.
    pub fn report_failed(&mut self, id: usize, reason: String)
        requires
            old(self).wf(),
        ensures
            final(self).wf(),
            final(self)@ == old(self)@.failed(id, reason@),
    {
        if id >= self.queue.len() {
            return ;
        }
        self.release_slot(id);
        let item = &mut self.queue[id];
        item.status = DownloadStatus::Failed(reason);
        item.speed = "Failed".to_owned();
        proof {
            let before = old(self)@;
            let next = before.queue[id as int].broken(reason@);
            assert(self@.queue =~= before.queue.update(id as int, next));
            assert(self@.pool =~= before.pool);
            lemma_count_update(before.queue, id as int, next);
            assert forall|i: int| 0 <= i < self@.queue.len() implies (#[trigger] self@.queue[i]).id
                == i && self@.queue[i].progress.in_range() by {
                assert(before.queue[i].id == i);
            }
        }
    }

    /// Cancels job `id`: it is cancelled and its slot is free at once. An
    /// unknown id changes nothing.
    pub fn cancel(&mut self, id: usize)
        requires
            old(self).wf(),
        ensures
            final(self).wf(),
            final(self)@ == old(self)@.cancel(id),
    {
        if id >= self.queue.len() {
            return ;
        }
        self.release_slot(id);
        let item = &mut self.queue[id];
        item.status = DownloadStatus::Cancelled;
        proof {
            let before = old(self)@;
            let next = before.queue[id as int].cancelled();
            assert(self@.queue =~= before.queue.update(id as int, next));
            assert(self@.pool =~= before.pool);
            lemma_count_update(before.queue, id as int, next);
            assert forall|i: int| 0 <= i < self@.queue.len() implies (#[trigger] self@.queue[i]).id
                == i && self@.queue[i].progress.in_range() by {
                assert(before.queue[i].id == i);
            }
        }
    }

    /// Sends job `id` back to wait for a slot, with no progress, whatever
    /// its state was. An unknown id changes nothing.
    pub fn retry(&mut self, id: usize)
        requires
            old(self).wf(),
        ensures
            final(self).wf(),
            final(self)@ == old(self)@.retry(id),
    {
        if id >= self.queue.len() {
            return ;
        }
        self.release_slot(id);
        let item = &mut self.queue[id];
        item.status = DownloadStatus::Queued;
        item.progress = Percent::zero();
        proof {
            let before = old(self)@;
            let next = before.queue[id as int].requeued();
            assert(self@.queue =~= before.queue.update(id as int, next));
            assert(self@.pool =~= before.pool);
            lemma_count_update(before.queue, id as int, next);
            assert forall|i: int| 0 <= i < self@.queue.len() implies (#[trigger] self@.queue[i]).id
                == i && self@.queue[i].progress.in_range() by {
                assert(before.queue[i].id == i);
            }
        }
    }
}

/// The scheduler after `n` ticks in a row.
pub open spec fn after_ticks(s: SchedulerView, n: nat) -> SchedulerView
    decreases n,
{
    if n == 0 {
        s
    } else {
        after_ticks(s, (n - 1) as nat).tick()
    }
}

/// A tick keeps a well-formed scheduler well-formed, admits at most one job
/// and never takes the active count above the budget: the count grows only
/// while it is below the budget.
pub proof fn lemma_tick_respects_budget(s: SchedulerView)
    requires
        s.wf(),
    ensures
        s.tick().wf(),
        s.tick().active == s.active || s.tick().active == s.active + 1,
        s.tick().active <= s.active || s.tick().active <= s.max_concurrent,
        s.tick().max_concurrent == s.max_concurrent,
        s.tick().queue.len() == s.queue.len(),
{
    if s.can_admit() {
        let at = first_queued(s.queue);
        lemma_first_queued_from(s.queue, 0);
        let next = s.queue[at].admitted(s.next_proxy());
        lemma_count_update(s.queue, at, next);
        assert forall|i: int| 0 <= i < s.tick().queue.len() implies (#[trigger] s.tick().queue[i]).id
            == i && s.tick().queue[i].progress.in_range() by {
            assert(s.queue[i].id == i);
        }
    }
}

/// Admission respects the budget: from a scheduler whose active count is
/// within the budget, no number of ticks takes the count of downloading
/// jobs above the budget.
pub proof fn lemma_ticks_respect_budget(s: SchedulerView, n: nat)
    requires
        s.wf(),
        s.active <= s.max_concurrent,
    ensures
        after_ticks(s, n).wf(),
        after_ticks(s, n).max_concurrent == s.max_concurrent,
        count_downloading(after_ticks(s, n).queue) <= s.max_concurrent,
    decreases n,
{
    if n > 0 {
        lemma_ticks_respect_budget(s, (n - 1) as nat);
        lemma_tick_respects_budget(after_ticks(s, (n - 1) as nat));
    }
}

/// Lowering the budget cancels nothing: the queue and the active count stay
/// as they are, and while the active count is not below the budget a tick
/// changes nothing.
pub proof fn lemma_lower_budget_suppresses_admission(s: SchedulerView, limit: nat)
    requires
        s.wf(),
        clamp_concurrent(limit) <= s.active,
    ensures
        s.with_limit(limit).wf(),
        s.with_limit(limit).queue == s.queue,
        s.with_limit(limit).active == s.active,
        s.with_limit(limit).tick() == s.with_limit(limit),
{
}

/// First in, first out: while a job waits, a tick admits no job that waits
/// behind it.
pub proof fn lemma_tick_is_fifo(s: SchedulerView, earlier: int, later: int)
    requires
        0 <= earlier < later < s.queue.len(),
        s.queue[earlier].status is Queued,
        s.queue[later].status is Queued,
    ensures
        s.tick().queue[later].status is Queued,
        s.can_admit() ==> first_queued(s.queue) <= earlier,
{
    lemma_first_queued_from(s.queue, 0);
}

/// Round robin: an admission that draws on the pool gives the job the pool
/// entry at the counter, and moves the counter on by one, so that the next
/// such admission draws the entry after it.
pub proof fn lemma_pool_rotates(s: SchedulerView)
    requires
        s.wf(),
        s.can_admit(),
        s.uses_pool(),
        s.counter < usize::MAX,
    ensures
        s.tick().queue[first_queued(s.queue)].assigned_proxy == Some(
            proxy_uri(s.pool[(s.counter % s.pool.len()) as int], s.protocol.scheme()),
        ),
        s.tick().counter == s.counter + 1,
        s.tick().uses_pool(),
        s.tick().next_proxy() == Some(
            proxy_uri(s.pool[((s.counter + 1) % s.pool.len()) as int], s.protocol.scheme()),
        ),
{
    lemma_first_queued_from(s.queue, 0);
}

/// A job that has ended takes no progress: an observation for it leaves the
/// whole scheduler as it is.
pub proof fn lemma_ended_job_ignores_progress(
    s: SchedulerView,
    id: usize,
    progress: Percent,
    speed: Seq<char>,
    size: Seq<char>,
)
    requires
        s.has_job(id),
        s.queue[id as int].status.is_terminal(),
    ensures
        s.progress(id, progress, speed, size) == s,
{
    assert(s.queue.update(id as int, s.queue[id as int]) =~= s.queue);
}

/// Progress never falls while a job runs, and never leaves the range from
/// nothing to the whole.
pub proof fn lemma_progress_is_monotone(
    s: SchedulerView,
    id: usize,
    progress: Percent,
    speed: Seq<char>,
    size: Seq<char>,
)
    requires
        s.wf(),
        s.has_job(id),
    ensures
        s.progress(id, progress, speed, size).queue[id as int].progress.thousandths
            >= s.queue[id as int].progress.thousandths,
        s.progress(id, progress, speed, size).queue[id as int].progress.in_range(),
        s.progress(id, progress, speed, size).queue[id as int].status == s.queue[id as int].status,
{
}

/// A retry resets a job: it waits again with no progress, and a tick with a
/// free slot admits it, with the proxy that is next, unless a job waits
/// before it.
pub proof fn lemma_retry_requeues(s: SchedulerView, id: usize)
    requires
        s.wf(),
        s.has_job(id),
    ensures
        s.retry(id).wf(),
        s.retry(id).queue[id as int].status is Queued,
        s.retry(id).queue[id as int].progress.thousandths == 0,
        first_queued(s.retry(id).queue) <= id,
        s.retry(id).active < s.retry(id).max_concurrent ==> s.retry(id).can_admit(),
        s.retry(id).active < s.retry(id).max_concurrent && first_queued(s.retry(id).queue) == id
            ==> s.retry(id).tick().queue[id as int] == s.retry(id).queue[id as int].admitted(
            s.retry(id).next_proxy(),
        ),
{
    let r = s.retry(id);
    let next = s.queue[id as int].requeued();
    lemma_count_update(s.queue, id as int, next);
    lemma_first_queued_from(r.queue, 0);
    assert forall|i: int| 0 <= i < r.queue.len() implies (#[trigger] r.queue[i]).id == i
        && r.queue[i].progress.in_range() by {
        assert(s.queue[i].id == i);
    }
}

/// Cancelling a running job frees its slot at once: the active count falls
/// by one, and where the budget was used up and a job waits, the very next
/// tick admits the first waiting job.
pub proof fn lemma_cancel_frees_slot(s: SchedulerView, id: usize)
    requires
        s.wf(),
        s.has_job(id),
        s.queue[id as int].status is Downloading,
        s.active <= s.max_concurrent,
    ensures
        s.cancel(id).wf(),
        s.cancel(id).active + 1 == s.active,
        s.cancel(id).queue[id as int].status is Cancelled,
        first_queued(s.cancel(id).queue) == first_queued(s.queue),
        first_queued(s.queue) < s.queue.len() ==> s.cancel(id).can_admit()
            && s.cancel(id).tick().queue[first_queued(s.queue)].status is Downloading,
{
    let c = s.cancel(id);
    let next = s.queue[id as int].cancelled();
    lemma_count_update(s.queue, id as int, next);
    lemma_first_queued_from(s.queue, 0);
    lemma_first_queued_is(c.queue, first_queued(s.queue));
    assert forall|i: int| 0 <= i < c.queue.len() implies (#[trigger] c.queue[i]).id == i
        && c.queue[i].progress.in_range() by {
        assert(s.queue[i].id == i);
    }
}

/// No two jobs share an id, and an enqueued job gets an id that no job had
/// before.
pub proof fn lemma_ids_are_unique(s: SchedulerView, i: int, j: int)
    requires
        s.wf(),
        0 <= i < s.queue.len(),
        0 <= j < s.queue.len(),
        i != j,
    ensures
        s.queue[i].id != s.queue[j].id,
{
}

/// Whether the jobs of `before` are all still there in `after`, at their
/// places and with what they were created with: id, address, title and
/// options.
pub open spec fn keeps_jobs(before: Seq<ItemView>, after: Seq<ItemView>) -> bool {
    &&& before.len() <= after.len()
    &&& forall|i: int|
        0 <= i < before.len() ==> (#[trigger] after[i]).id == before[i].id && after[i].url
            == before[i].url && after[i].title == before[i].title && after[i].options
            == before[i].options
}

/// Whether every job of `before` has in `after` the proxy that it had.
pub open spec fn keeps_proxies(before: Seq<ItemView>, after: Seq<ItemView>) -> bool {
    &&& before.len() <= after.len()
    &&& forall|i: int|
        0 <= i < before.len() ==> (#[trigger] after[i]).assigned_proxy == before[i].assigned_proxy
}

/// Replacing a job by one with the same id and a progress in range, and
/// correcting the active count by the slot that the job held, keeps the
/// scheduler well-formed.
pub proof fn lemma_with_job_wf(s: SchedulerView, id: usize, item: ItemView)
    requires
        s.wf(),
        s.has_job(id),
        item.id == id,
        item.progress.in_range(),
        !(item.status is Downloading),
    ensures
        s.with_job(id, item, s.slot_of(id)).wf(),
        s.active >= s.slot_of(id),
{
    let r = s.with_job(id, item, s.slot_of(id));
    lemma_count_update(s.queue, id as int, item);
    assert forall|i: int| 0 <= i < r.queue.len() implies (#[trigger] r.queue[i]).id == i
        && r.queue[i].progress.in_range() by {
        assert(s.queue[i].id == i);
    }
}

/// An observation keeps the scheduler well-formed.
pub proof fn lemma_progress_wf(
    s: SchedulerView,
    id: usize,
    progress: Percent,
    speed: Seq<char>,
    size: Seq<char>,
)
    requires
        s.wf(),
    ensures
        s.progress(id, progress, speed, size).wf(),
        s.progress(id, progress, speed, size).active == s.active,
{
    if s.has_job(id) {
        let item = s.queue[id as int].observed(progress, speed, size);
        let r = s.progress(id, progress, speed, size);
        lemma_count_update(s.queue, id as int, item);
        assert forall|i: int| 0 <= i < r.queue.len() implies (#[trigger] r.queue[i]).id == i
            && r.queue[i].progress.in_range() by {
            assert(s.queue[i].id == i);
        }
    }
}

/// Enqueueing keeps the scheduler well-formed, keeps every job and adds one
/// that waits, without a proxy, under an id that no job had.
pub proof fn lemma_enqueue_wf(
    s: SchedulerView,
    url: Seq<char>,
    title: Seq<char>,
    options: OptionsView,
)
    requires
        s.wf(),
        s.queue.len() < usize::MAX,
    ensures
        s.enqueue(url, title, options).wf(),
        s.enqueue(url, title, options).active == s.active,
        s.enqueue(url, title, options).max_concurrent == s.max_concurrent,
        s.enqueue(url, title, options).queue.len() == s.queue.len() + 1,
        keeps_jobs(s.queue, s.enqueue(url, title, options).queue),
        keeps_proxies(s.queue, s.enqueue(url, title, options).queue),
        s.enqueue(url, title, options).queue.last() == ItemView::fresh(
            s.queue.len() as usize,
            url,
            title,
            options,
        ),
        forall|i: int| 0 <= i < s.queue.len() ==> s.queue[i].id != s.queue.len(),
{
    let r = s.enqueue(url, title, options);
    lemma_count_push(s.queue, r.queue.last());
    assert forall|i: int| 0 <= i < r.queue.len() implies (#[trigger] r.queue[i]).id == i
        && r.queue[i].progress.in_range() by {
        if i < s.queue.len() {
            assert(s.queue[i].id == i);
        }
    }
    assert forall|i: int| 0 <= i < s.queue.len() implies s.queue[i].id != s.queue.len() by {
        assert(s.queue[i].id == i);
    }
}

} // verus!
