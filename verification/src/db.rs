use crate::processing::ProcessedEvent;
use crate::text::same_text;
use crate::time::UtcDate;
use vstd::prelude::*;
use vstd::string::*;
use vstd::utf8::encode_utf8;

verus! {

pub const NUM_INSERT_WORKERS: usize = 1;

pub const EVENT_CHANNEL_CAPACITY: usize = 100_000;

pub const WORKER_CHANNEL_CAPACITY: usize = 10_000;

pub const INSERTER_TIMEOUT_SECS: u64 = 5;

pub const INSERTER_PERIOD_SECS: u64 = 10;

pub const INSERTER_MAX_ROWS: u64 = 100_000;

pub const INSERTER_MAX_BYTES: u64 = 52_428_800;

/// What a row weighs besides its texts: the fixed-width columns and the
/// length prefixes of the texts.
pub const ROW_FIXED_BYTES: u64 = 32;

/// The kind of an event, as the store keeps it.
#[derive(Debug, Clone, Copy, PartialEq, Eq, Structural)]
pub enum EventType {
    Pageview,
    Custom,
}

impl EventType {
    /// The kind that a name stands for: `pageview` or `custom`, nothing else.
    pub open spec fn of_name(name: Seq<char>) -> Option<EventType> {
        if name == "pageview"@ {
            Some(EventType::Pageview)
        } else if name == "custom"@ {
            Some(EventType::Custom)
        } else {
            None
        }
    }

    pub fn from_name(name: &str) -> (r: Option<EventType>)
        ensures
            r == Self::of_name(name@),
    {
        if same_text(name, "pageview") {
            Some(EventType::Pageview)
        } else if same_text(name, "custom") {
            Some(EventType::Custom)
        } else {
            None
        }
    }

    /// The number under which the store keeps a kind.
    pub fn code(&self) -> (c: u8)
        ensures
            c == match *self {
                EventType::Pageview => 1u8,
                EventType::Custom => 2u8,
            },
    {
        match self {
            EventType::Pageview => 1,
            EventType::Custom => 2,
        }
    }
}

/// One row of the events table; the fields stand in the order of its columns.
#[derive(Debug, Clone)]
pub struct EventRow {
    pub site_id: String,
    pub visitor_id: String,
    pub session_id: String,
    pub domain: String,
    pub url: String,
    pub user_agent: String,
    pub device_type: String,
    pub country_code: Option<String>,
    /// Seconds since the Unix epoch
    pub timestamp: i64,
    pub date: UtcDate,
    pub browser: String,
    pub browser_version: String,
    pub os: String,
    pub referrer_source: String,
    pub referrer_source_name: String,
    pub referrer_search_term: String,
    pub referrer_url: String,
    pub utm_source: String,
    pub utm_medium: String,
    pub utm_campaign: String,
    pub utm_term: String,
    pub utm_content: String,
    pub event_type: EventType,
    pub custom_event_name: String,
    pub custom_event_json: String,
}

/// The text of an optional column: the value, or `fallback` where there is none.
pub open spec fn text_or(value: Option<String>, fallback: Seq<char>) -> Seq<char> {
    match value {
        Some(s) => s@,
        None => fallback,
    }
}

fn unwrap_or_text(value: Option<String>, fallback: &str) -> (r: String)
    ensures
        r@ == text_or(value, fallback@),
{
    match value {
        Some(s) => s,
        None => fallback.to_owned(),
    }
}

/// The number of bytes of a text in UTF-8.
pub open spec fn utf8_len(s: Seq<char>) -> nat {
    encode_utf8(s).len()
}

impl EventRow {
    /// The row that an enriched event is stored as.
    pub open spec fn is_row_of(&self, event: ProcessedEvent) -> bool {
        &&& self.site_id == event.site_id
        &&& self.visitor_id == event.visitor_fingerprint
        &&& self.session_id == event.session_id
        &&& self.domain@ == text_or(event.domain, "unknown"@)
        &&& self.url == event.url
        &&& self.user_agent == event.user_agent
        &&& self.device_type@ == text_or(event.device_type, "unknown"@)
        &&& self.country_code == event.country_code
        &&& self.timestamp == event.timestamp.secs
        &&& self.date == event.timestamp.date
        &&& self.browser@ == text_or(event.browser, "unknown"@)
        &&& self.browser_version@ == text_or(event.browser_version, Seq::empty())
        &&& self.os@ == text_or(event.os, "unknown"@)
        &&& self.referrer_source@ == event.referrer_info.source.name()
        &&& self.referrer_source_name@ == text_or(event.referrer_info.source_name, Seq::empty())
        &&& self.referrer_search_term@ == text_or(event.referrer_info.search_term, Seq::empty())
        &&& self.referrer_url@ == text_or(event.referrer_info.url, Seq::empty())
        &&& self.utm_source@ == text_or(event.campaign_info.utm_source, Seq::empty())
        &&& self.utm_medium@ == text_or(event.campaign_info.utm_medium, Seq::empty())
        &&& self.utm_campaign@ == text_or(event.campaign_info.utm_campaign, Seq::empty())
        &&& self.utm_term@ == text_or(event.campaign_info.utm_term, Seq::empty())
        &&& self.utm_content@ == text_or(event.campaign_info.utm_content, Seq::empty())
        &&& EventType::of_name(event.event_type@) == Some(self.event_type)
        &&& self.custom_event_name == event.custom_event_name
        &&& self.custom_event_json == event.custom_event_json
    }

    /// The row of an enriched event whose kind is `pageview` or `custom`.
    pub fn from_processed(event: ProcessedEvent) -> (row: Self)
        requires
            EventType::of_name(event.event_type@) is Some,
        ensures
            row.is_row_of(event),
    {
        let event_type = match EventType::from_name(event.event_type.as_str()) {
            Some(t) => t,
            None => EventType::Pageview,
        };
        proof {
            reveal_strlit("");
            assert(""@ =~= Seq::<char>::empty());
        }
        Self {
            site_id: event.site_id,
            visitor_id: event.visitor_fingerprint,
            session_id: event.session_id,
            domain: unwrap_or_text(event.domain, "unknown"),
            url: event.url,
            user_agent: event.user_agent,
            device_type: unwrap_or_text(event.device_type, "unknown"),
            country_code: event.country_code,
            timestamp: event.timestamp.secs,
            date: event.timestamp.date,
            browser: unwrap_or_text(event.browser, "unknown"),
            browser_version: unwrap_or_text(event.browser_version, ""),
            os: unwrap_or_text(event.os, "unknown"),
            referrer_source: event.referrer_info.source.as_str().to_owned(),
            referrer_source_name: unwrap_or_text(event.referrer_info.source_name, ""),
            referrer_search_term: unwrap_or_text(event.referrer_info.search_term, ""),
            referrer_url: unwrap_or_text(event.referrer_info.url, ""),
            utm_source: unwrap_or_text(event.campaign_info.utm_source, ""),
            utm_medium: unwrap_or_text(event.campaign_info.utm_medium, ""),
            utm_campaign: unwrap_or_text(event.campaign_info.utm_campaign, ""),
            utm_term: unwrap_or_text(event.campaign_info.utm_term, ""),
            utm_content: unwrap_or_text(event.campaign_info.utm_content, ""),
            event_type,
            custom_event_name: event.custom_event_name,
            custom_event_json: event.custom_event_json,
        }
    }

    /// The row of an enriched event, or `None` where its kind is neither
    /// `pageview` nor `custom`: such an event cannot be stored.
    pub fn try_from_processed(event: ProcessedEvent) -> (r: Option<Self>)
        ensures
            r is Some <==> EventType::of_name(event.event_type@) is Some,
            r matches Some(row) ==> row.is_row_of(event),
    {
        if EventType::from_name(event.event_type.as_str()).is_some() {
            Some(Self::from_processed(event))
        } else {
            None
        }
    }
}

/// Adds the bytes of a text in UTF-8 to a capped weight.
fn add_text(w: u64, Ghost(total): Ghost<nat>, s: &String) -> (r: u64)
    requires
        w == capped(total),
    ensures
        r == capped(total + utf8_len(s@)),
{
    let n = s.as_str().as_bytes().len();
    w.saturating_add(n as u64)
}

/// The thresholds at which a worker writes its batch out.
#[derive(Debug, Clone, Copy)]
pub struct BatchLimits {
    /// Rows in a batch
    pub max_rows: u64,
    /// Bytes in a batch
    pub max_bytes: u64,
    /// Milliseconds since the last flush
    pub period_ms: u64,
}

impl BatchLimits {
    /// The limits that the service runs with.
    pub fn standard() -> (limits: Self)
        ensures
            limits.max_rows == INSERTER_MAX_ROWS,
            limits.max_bytes == INSERTER_MAX_BYTES,
            limits.period_ms == INSERTER_PERIOD_SECS * 1000,
    {
        BatchLimits {
            max_rows: INSERTER_MAX_ROWS,
            max_bytes: INSERTER_MAX_BYTES,
            period_ms: INSERTER_PERIOD_SECS * 1000,
        }
    }

    /// A batch is due when any one of the three limits is reached.
    pub open spec fn reached(self, rows: nat, bytes: nat, elapsed: nat) -> bool {
        rows >= self.max_rows || bytes >= self.max_bytes || elapsed >= self.period_ms
    }
}

/// What a row weighs in a batch: its texts in UTF-8 and `ROW_FIXED_BYTES`.
pub open spec fn row_weight(row: EventRow) -> nat {
    ROW_FIXED_BYTES as nat + utf8_len(row.site_id@) + utf8_len(row.visitor_id@) + utf8_len(
        row.session_id@,
    ) + utf8_len(row.domain@) + utf8_len(row.url@) + utf8_len(row.user_agent@) + utf8_len(
        row.device_type@,
    ) + utf8_len(text_or(row.country_code, Seq::empty())) + utf8_len(row.browser@) + utf8_len(
        row.browser_version@,
    ) + utf8_len(row.os@) + utf8_len(row.referrer_source@) + utf8_len(row.referrer_source_name@)
        + utf8_len(row.referrer_search_term@) + utf8_len(row.referrer_url@) + utf8_len(
        row.utm_source@,
    ) + utf8_len(row.utm_medium@) + utf8_len(row.utm_campaign@) + utf8_len(row.utm_term@)
        + utf8_len(row.utm_content@) + utf8_len(row.custom_event_name@) + utf8_len(
        row.custom_event_json@,
    )
}

/// What a batch weighs: the sum over its rows.
pub open spec fn batch_weight(rows: Seq<EventRow>) -> nat
    decreases rows.len(),
{
    if rows.len() == 0 {
        0
    } else {
        batch_weight(rows.drop_last()) + row_weight(rows.last())
    }
}

/// A weight as a worker counts it: capped at the largest `u64`.
pub open spec fn capped(weight: nat) -> u64 {
    if weight > u64::MAX {
        u64::MAX
    } else {
        weight as u64
    }
}

/// The milliseconds from `start` to `now`; none where `now` lies before `start`.
pub open spec fn elapsed_ms(start: u64, now: u64) -> nat {
    if now >= start {
        (now - start) as nat
    } else {
        0
    }
}

impl EventRow {
    /// The weight of this row, capped at the largest `u64`.
    pub fn weight(&self) -> (w: u64)
        ensures
            w == capped(row_weight(*self)),
    {
        let ghost mut t: nat = ROW_FIXED_BYTES as nat;
        let mut w: u64 = ROW_FIXED_BYTES;
        w = add_text(w, Ghost(t), &self.site_id);
        proof { t = t + utf8_len(self.site_id@); }
        w = add_text(w, Ghost(t), &self.visitor_id);
        proof { t = t + utf8_len(self.visitor_id@); }
        w = add_text(w, Ghost(t), &self.session_id);
        proof { t = t + utf8_len(self.session_id@); }
        w = add_text(w, Ghost(t), &self.domain);
        proof { t = t + utf8_len(self.domain@); }
        w = add_text(w, Ghost(t), &self.url);
        proof { t = t + utf8_len(self.url@); }
        w = add_text(w, Ghost(t), &self.user_agent);
        proof { t = t + utf8_len(self.user_agent@); }
        w = add_text(w, Ghost(t), &self.device_type);
        proof { t = t + utf8_len(self.device_type@); }
        match &self.country_code {
            Some(c) => {
                w = add_text(w, Ghost(t), c);
                proof { t = t + utf8_len(c@); }
            },
            None => {
                assert(utf8_len(Seq::<char>::empty()) == 0);
            },
        }
        w = add_text(w, Ghost(t), &self.browser);
        proof { t = t + utf8_len(self.browser@); }
        w = add_text(w, Ghost(t), &self.browser_version);
        proof { t = t + utf8_len(self.browser_version@); }
        w = add_text(w, Ghost(t), &self.os);
        proof { t = t + utf8_len(self.os@); }
        w = add_text(w, Ghost(t), &self.referrer_source);
        proof { t = t + utf8_len(self.referrer_source@); }
        w = add_text(w, Ghost(t), &self.referrer_source_name);
        proof { t = t + utf8_len(self.referrer_source_name@); }
        w = add_text(w, Ghost(t), &self.referrer_search_term);
        proof { t = t + utf8_len(self.referrer_search_term@); }
        w = add_text(w, Ghost(t), &self.referrer_url);
        proof { t = t + utf8_len(self.referrer_url@); }
        w = add_text(w, Ghost(t), &self.utm_source);
        proof { t = t + utf8_len(self.utm_source@); }
        w = add_text(w, Ghost(t), &self.utm_medium);
        proof { t = t + utf8_len(self.utm_medium@); }
        w = add_text(w, Ghost(t), &self.utm_campaign);
        proof { t = t + utf8_len(self.utm_campaign@); }
        w = add_text(w, Ghost(t), &self.utm_term);
        proof { t = t + utf8_len(self.utm_term@); }
        w = add_text(w, Ghost(t), &self.utm_content);
        proof { t = t + utf8_len(self.utm_content@); }
        w = add_text(w, Ghost(t), &self.custom_event_name);
        proof { t = t + utf8_len(self.custom_event_name@); }
        w = add_text(w, Ghost(t), &self.custom_event_json);
        proof { t = t + utf8_len(self.custom_event_json@); }
        assert(t == row_weight(*self));
        w
    }
}

/// What reaches a worker.
pub enum WorkerInput {
    /// An enriched event came off the queue.
    Event(ProcessedEvent),
    /// The queue holds nothing right now.
    QueueEmpty,
    /// The wait for the next event ran out.
    WaitTimedOut,
    /// The queue is closed: no event will come any more.
    Closed,
}

/// What a worker's driver has to do next.
pub enum WorkerAction {
    /// Take the next input.
    Continue,
    /// The event cannot be stored and was dropped; take the next input.
    Rejected,
    /// Wait for the next event, this many milliseconds at most.
    Wait { millis: u64 },
    /// Write these rows to the store, in this order, then take the next input.
    Commit { batch: Vec<EventRow> },
    /// Write these rows to the store, in this order, then stop.
    Finish { batch: Vec<EventRow> },
}

/// `all` is `before` with the row of `event` put behind it.
pub open spec fn extended_by(all: Seq<EventRow>, before: Seq<EventRow>, event: ProcessedEvent) -> bool {
    &&& all.len() == before.len() + 1
    &&& all.drop_last() == before
    &&& all.last().is_row_of(event)
}

/// One worker of the batched writer: the rows it has taken and not yet handed
/// out for writing, and the time at which its current period began.
pub struct InsertWorker {
    limits: BatchLimits,
    rows: Vec<EventRow>,
    bytes: u64,
    period_start: u64,
}

impl InsertWorker {
    pub closed spec fn limits(&self) -> BatchLimits {
        self.limits
    }

    /// The rows taken and not yet handed out, oldest first.
    pub closed spec fn pending(&self) -> Seq<EventRow> {
        self.rows@
    }

    /// The time, in milliseconds, at which the current period began.
    pub closed spec fn period_start(&self) -> u64 {
        self.period_start
    }

    /// The byte count kept beside the rows is their weight.
    pub closed spec fn wf(&self) -> bool {
        self.bytes == capped(batch_weight(self.rows@))
    }

    /// Whether the pending batch is due at `now`.
    pub open spec fn due(&self, now: u64) -> bool {
        self.limits().reached(
            self.pending().len(),
            batch_weight(self.pending()),
            elapsed_ms(self.period_start(), now),
        )
    }

    /// The milliseconds left of the current period at `now`.
    pub open spec fn time_left_at(&self, now: u64) -> nat {
        let gone = elapsed_ms(self.period_start(), now);
        if gone >= self.limits().period_ms {
            0
        } else {
            (self.limits().period_ms - gone) as nat
        }
    }

    /// What `step` does: how the worker `after` and the action follow from the
    /// worker `before`, the input and the time.
    pub open spec fn step_spec(
        before: InsertWorker,
        input: WorkerInput,
        now: u64,
        after: InsertWorker,
        action: WorkerAction,
    ) -> bool {
        &&& after.limits() == before.limits()
        &&& match input {
            WorkerInput::Event(event) => {
                if EventType::of_name(event.event_type@) is None {
                    &&& action is Rejected
                    &&& after.pending() == before.pending()
                    &&& after.period_start() == before.period_start()
                } else {
                    match action {
                        WorkerAction::Continue => {
                            &&& extended_by(after.pending(), before.pending(), event)
                            &&& after.period_start() == before.period_start()
                            &&& !after.due(now)
                        },
                        WorkerAction::Commit { batch } => {
                            &&& extended_by(batch@, before.pending(), event)
                            &&& before.limits().reached(
                                batch@.len(),
                                batch_weight(batch@),
                                elapsed_ms(before.period_start(), now),
                            )
                            &&& after.pending().len() == 0
                            &&& after.period_start() == now
                        },
                        _ => false,
                    }
                }
            },
            WorkerInput::QueueEmpty => {
                &&& action matches WorkerAction::Wait { millis }
                &&& millis == before.time_left_at(now)
                &&& after.pending() == before.pending()
                &&& after.period_start() == before.period_start()
            },
            WorkerInput::WaitTimedOut => {
                if !before.due(now) {
                    &&& action is Continue
                    &&& after.pending() == before.pending()
                    &&& after.period_start() == before.period_start()
                } else if before.pending().len() == 0 {
                    &&& action is Continue
                    &&& after.pending().len() == 0
                    &&& after.period_start() == now
                } else {
                    &&& action matches WorkerAction::Commit { batch }
                    &&& batch@ == before.pending()
                    &&& after.pending().len() == 0
                    &&& after.period_start() == now
                }
            },
            WorkerInput::Closed => {
                &&& action matches WorkerAction::Finish { batch }
                &&& batch@ == before.pending()
                &&& after.pending().len() == 0
                &&& after.period_start() == before.period_start()
            },
        }
    }

    /// A worker with nothing pending, whose first period begins at `now`.
    pub fn new(limits: BatchLimits, now: u64) -> (worker: Self)
        ensures
            worker.wf(),
            worker.limits() == limits,
            worker.pending().len() == 0,
            worker.period_start() == now,
    {
        InsertWorker { limits, rows: Vec::new(), bytes: 0, period_start: now }
    }

    /// The number of rows pending.
    pub fn pending_rows(&self) -> (n: usize)
        ensures
            n == self.pending().len(),
    {
        self.rows.len()
    }

    /// The milliseconds left of the current period: how long the driver may
    /// wait for the next event before the batch is due by time.
    pub fn time_left(&self, now: u64) -> (millis: u64)
        ensures
            millis == self.time_left_at(now),
    {
        let gone: u64 = if now >= self.period_start {
            now - self.period_start
        } else {
            0
        };
        if gone >= self.limits.period_ms {
            0
        } else {
            self.limits.period_ms - gone
        }
    }

    fn is_due(&self, now: u64) -> (r: bool)
        requires
            self.wf(),
        ensures
            r == self.due(now),
    {
        let gone: u64 = if now >= self.period_start {
            now - self.period_start
        } else {
            0
        };
        self.rows.len() as u64 >= self.limits.max_rows || self.bytes >= self.limits.max_bytes
            || gone >= self.limits.period_ms
    }

    fn take_batch(&mut self, now: u64) -> (batch: Vec<EventRow>)
        ensures
            batch@ == old(self).pending(),
            final(self).wf(),
            final(self).limits() == old(self).limits(),
            final(self).pending().len() == 0,
            final(self).period_start() == now,
    {
        let mut batch: Vec<EventRow> = Vec::new();
        std::mem::swap(&mut batch, &mut self.rows);
        self.bytes = 0;
        self.period_start = now;
        batch
    }

    /// Takes one input at the time `now` and says what the driver does next.
    ///
    /// An event that can be stored joins the batch; the batch is handed out at
    /// once when that makes it due, by rows, by bytes or by time. An event that
    /// cannot be stored is dropped and the batch stays as it was. When the
    /// queue is empty the driver is told how long to wait; when that wait runs
    /// out the batch is handed out if it is due. When the queue is closed, what
    /// is pending is handed out as the last batch.
    pub fn step(&mut self, input: WorkerInput, now: u64) -> (action: WorkerAction)
        requires
            old(self).wf(),
        ensures
            final(self).wf(),
            Self::step_spec(*old(self), input, now, *final(self), action),
    {
        match input {
            WorkerInput::Event(event) => {
                match EventRow::try_from_processed(event) {
                    None => WorkerAction::Rejected,
                    Some(row) => {
                        let weight = row.weight();
                        let ghost before = self.rows@;
                        self.rows.push(row);
                        self.bytes = self.bytes.saturating_add(weight);
                        proof {
                            assert(self.rows@.drop_last() == before);
                        }
                        if self.is_due(now) {
                            let batch = self.take_batch(now);
                            WorkerAction::Commit { batch }
                        } else {
                            WorkerAction::Continue
                        }
                    },
                }
            },
            WorkerInput::QueueEmpty => WorkerAction::Wait { millis: self.time_left(now) },
            WorkerInput::WaitTimedOut => {
                if !self.is_due(now) {
                    WorkerAction::Continue
                } else if self.rows.len() == 0 {
                    self.period_start = now;
                    WorkerAction::Continue
                } else {
                    let batch = self.take_batch(now);
                    WorkerAction::Commit { batch }
                }
            },
            WorkerInput::Closed => {
                let start = self.period_start;
                let batch = self.take_batch(start);
                WorkerAction::Finish { batch }
            },
        }
    }
}

/// A batch that has reached none of the three limits is not handed out: below
/// the row and byte limits, a worker keeps its rows until the period is over.
pub proof fn law_no_flush_below_limits(
    before: InsertWorker,
    input: WorkerInput,
    now: u64,
    after: InsertWorker,
    action: WorkerAction,
)
    requires
        InsertWorker::step_spec(before, input, now, after, action),
        input is Event || input is WaitTimedOut,
        action matches WorkerAction::Commit { batch },
    ensures
        action matches WorkerAction::Commit { batch } && ({
            ||| batch@.len() >= before.limits().max_rows
            ||| batch_weight(batch@) >= before.limits().max_bytes
            ||| elapsed_ms(before.period_start(), now) >= before.limits().period_ms
        }),
{
}

/// The row that reaches the row limit is handed out with its batch at once,
/// whatever the time: the worker does not wait for the period to end.
pub proof fn law_row_limit_flushes_at_once(
    before: InsertWorker,
    event: ProcessedEvent,
    now: u64,
    after: InsertWorker,
    action: WorkerAction,
)
    requires
        InsertWorker::step_spec(before, WorkerInput::Event(event), now, after, action),
        EventType::of_name(event.event_type@) is Some,
        before.pending().len() + 1 >= before.limits().max_rows,
    ensures
        action matches WorkerAction::Commit { batch } && extended_by(
            batch@,
            before.pending(),
            event,
        ),
        after.pending().len() == 0,
{
}

/// The round-robin dispatcher: which worker gets the next event.
pub struct Dispatcher {
    workers: usize,
    next: usize,
}

impl Dispatcher {
    pub closed spec fn workers(&self) -> usize {
        self.workers
    }

    /// The worker that the next event goes to.
    pub closed spec fn next(&self) -> usize {
        self.next
    }

    pub closed spec fn wf(&self) -> bool {
        self.next < self.workers
    }

    /// A dispatcher over `workers` workers that starts with the first.
    pub fn new(workers: usize) -> (d: Self)
        requires
            workers > 0,
        ensures
            d.wf(),
            d.workers() == workers,
            d.next() == 0,
    {
        Dispatcher { workers, next: 0 }
    }

    /// The worker for the next event; the one after it is next in turn, and
    /// after the last comes the first again.
    pub fn assign(&mut self) -> (worker: usize)
        requires
            old(self).wf(),
        ensures
            final(self).wf(),
            final(self).workers() == old(self).workers(),
            worker == old(self).next(),
            final(self).next() == (old(self).next() + 1) % (old(self).workers() as int),
    {
        let worker = self.next;
        proof {
            if self.next + 1 == self.workers {
                vstd::arithmetic::div_mod::lemma_mod_self_0(self.workers as int);
            } else {
                vstd::arithmetic::div_mod::lemma_small_mod(
                    (self.next + 1) as nat,
                    self.workers as nat,
                );
            }
        }
        self.next = if self.next + 1 == self.workers {
            0
        } else {
            self.next + 1
        };
        worker
    }
}

} // verus!
