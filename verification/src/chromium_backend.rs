//! Connection options of the channel-based Chromium backend, its connection
//! retry decision, and the coalescing of tab resizes while one is in flight.

use std::collections::HashMap;
use std::collections::HashSet;

use vstd::prelude::*;

use crate::bridge::event::IpcEvent;
use crate::data::ids::TabId;

verus! {

/// The default time to wait for the first connection, in milliseconds.
pub const DEFAULT_CONNECT_TIMEOUT_MILLIS: u64 = 60_000;

/// The default pause between connection attempts, in milliseconds.
pub const DEFAULT_RETRY_INTERVAL_MILLIS: u64 = 100;

/// Options for establishing a connection to Chromium over a named channel.
#[derive(Debug, Clone, PartialEq, Eq)]
pub struct ChromiumBackendOptions {
    /// The name of the channel to connect to.
    pub channel_name: String,
    /// How long to keep trying to connect, in milliseconds; `None` waits without limit.
    pub connect_timeout_millis: Option<u64>,
    /// The pause between connection attempts, in milliseconds.
    pub retry_interval_millis: u64,
}

impl ChromiumBackendOptions {
    /// Options with the default connection behavior for the given channel.
    pub fn new(channel_name: String) -> (o: Self)
        ensures
            o.channel_name == channel_name,
            o.connect_timeout_millis == Some(DEFAULT_CONNECT_TIMEOUT_MILLIS),
            o.retry_interval_millis == DEFAULT_RETRY_INTERVAL_MILLIS,
    {
        ChromiumBackendOptions {
            channel_name,
            connect_timeout_millis: Some(DEFAULT_CONNECT_TIMEOUT_MILLIS),
            retry_interval_millis: DEFAULT_RETRY_INTERVAL_MILLIS,
        }
    }
}

/// Backend that connects to Chromium over a named channel.
#[derive(Debug, Clone, PartialEq, Eq)]
pub struct ChromiumBackend {
    pub options: ChromiumBackendOptions,
}

impl ChromiumBackend {
    /// A backend that will connect with the given options.
    pub fn new(options: ChromiumBackendOptions) -> (b: Self)
        ensures
            b.options == options,
    {
        ChromiumBackend { options }
    }
}

/// Whether a failed connection attempt ends the connection phase: it does
/// once the elapsed time exceeds the configured timeout, never without one.
pub open spec fn connect_gives_up(timeout_millis: Option<u64>, elapsed_millis: u64) -> bool {
    match timeout_millis {
        Some(timeout) => elapsed_millis > timeout,
        None => false,
    }
}

impl ChromiumBackendOptions {
    /// After a failed connection attempt, `elapsed_millis` after the first one:
    /// `true` to report a connection timeout, `false` to retry after the
    /// retry interval.
    pub fn gives_up_after(&self, elapsed_millis: u64) -> (r: bool)
        ensures
            r == connect_gives_up(self.connect_timeout_millis, elapsed_millis),
            self.connect_timeout_millis matches Some(t) ==> (r <==> elapsed_millis > t),
            self.connect_timeout_millis is None ==> !r,
    {
        match self.connect_timeout_millis {
            Some(timeout) => elapsed_millis > timeout,
            None => false,
        }
    }
}

/// Connecting gives up exactly once more time has passed than the options'
/// own timeout allows, and never without a timeout; so with a longer elapsed
/// time it gives up whenever it gave up with a shorter one.
pub proof fn lemma_gives_up_exactly_past_own_timeout(options: ChromiumBackendOptions, elapsed: u64, later: u64)
    ensures
        options.connect_timeout_millis matches Some(t) ==> (connect_gives_up(
            options.connect_timeout_millis,
            elapsed,
        ) <==> elapsed > t),
        options.connect_timeout_millis is None ==> !connect_gives_up(options.connect_timeout_millis, elapsed),
        elapsed <= later && connect_gives_up(options.connect_timeout_millis, elapsed) ==> connect_gives_up(
            options.connect_timeout_millis,
            later,
        ),
{
}

/// A tab size in pixels, width first.
pub type TabSize = (u32, u32);

/// The abstract resize bookkeeping: the tabs with a resize sent and not yet
/// acknowledged, and for some of them the latest size requested meanwhile.
#[verifier::ext_equal]
pub struct ResizeView {
    pub in_flight: Set<u64>,
    pub pending: Map<u64, TabSize>,
}

/// Every pending size belongs to a tab whose resize is in flight.
pub open spec fn resize_view_wf(v: ResizeView) -> bool {
    forall|id: u64| #[trigger] v.pending.contains_key(id) ==> v.in_flight.contains(id)
}

/// A resize request: sent at once (`true`) when none is in flight for the tab,
/// otherwise kept as the tab's pending size, replacing an earlier one.
pub open spec fn spec_request_resize(v: ResizeView, id: u64, size: TabSize) -> (ResizeView, bool) {
    if v.in_flight.contains(id) {
        (ResizeView { in_flight: v.in_flight, pending: v.pending.insert(id, size) }, false)
    } else {
        (ResizeView { in_flight: v.in_flight.insert(id), pending: v.pending }, true)
    }
}

/// A resize acknowledgement: the pending size, if any, is sent next and the
/// tab stays in flight; otherwise the tab has no resize in flight any more.
pub open spec fn spec_acknowledge_resize(v: ResizeView, id: u64) -> (ResizeView, Option<TabSize>) {
    if v.pending.contains_key(id) {
        (
            ResizeView { in_flight: v.in_flight.insert(id), pending: v.pending.remove(id) },
            Some(v.pending[id]),
        )
    } else {
        (ResizeView { in_flight: v.in_flight.remove(id), pending: v.pending }, None)
    }
}

/// A closed tab leaves no resize state behind.
pub open spec fn spec_forget_tab(v: ResizeView, id: u64) -> ResizeView {
    ResizeView { in_flight: v.in_flight.remove(id), pending: v.pending.remove(id) }
}

/// Creating, acknowledging and forgetting resizes keep every pending size
/// attached to a tab whose resize is in flight.
pub proof fn lemma_resize_bookkeeping_wf(v: ResizeView, id: u64, size: TabSize)
    requires
        resize_view_wf(v),
    ensures
        resize_view_wf(spec_request_resize(v, id, size).0),
        resize_view_wf(spec_acknowledge_resize(v, id).0),
        resize_view_wf(spec_forget_tab(v, id)),
{
}

/// A tab has at most one resize in flight: a request for a tab with none in
/// flight is sent at once, and a second request before the acknowledgement is
/// held back.
pub proof fn lemma_one_resize_in_flight(v: ResizeView, id: u64, first: TabSize, second: TabSize)
    requires
        !v.in_flight.contains(id),
    ensures
        ({
            let (v1, sent_first) = spec_request_resize(v, id, first);
            let (v2, sent_second) = spec_request_resize(v1, id, second);
            &&& sent_first
            &&& !sent_second
            &&& v2.pending[id] == second
        }),
{
}

/// While a resize is in flight, the sizes requested meanwhile collapse into
/// the latest one, which is what the acknowledgement releases; the tab then
/// stays in flight with nothing pending.
pub proof fn lemma_latest_resize_wins(v: ResizeView, id: u64, a: TabSize, b: TabSize)
    requires
        v.in_flight.contains(id),
    ensures
        ({
            let (v1, sent_a) = spec_request_resize(v, id, a);
            let (v2, sent_b) = spec_request_resize(v1, id, b);
            let (v3, next) = spec_acknowledge_resize(v2, id);
            &&& !sent_a
            &&& !sent_b
            &&& next == Some(b)
            &&& v3.in_flight.contains(id)
            &&& !v3.pending.contains_key(id)
        }),
{
}

/// An acknowledgement with nothing pending ends the tab's flight, so the next
/// request for it is sent at once; so is the first one after the tab is
/// forgotten.
pub proof fn lemma_flight_ends_without_pending(v: ResizeView, id: u64, size: TabSize)
    requires
        !v.pending.contains_key(id),
    ensures
        spec_acknowledge_resize(v, id).1 is None,
        spec_request_resize(spec_acknowledge_resize(v, id).0, id, size).1,
        spec_request_resize(spec_forget_tab(v, id), id, size).1,
{
}

/// The latest size that a batch of resize requests asks for a tab.
pub open spec fn latest_size(batch: Seq<(TabId, u32, u32)>, id: u64) -> Option<TabSize>
    decreases batch.len(),
{
    if batch.len() == 0 {
        None
    } else if batch.last().0.0 == id {
        Some((batch.last().1, batch.last().2))
    } else {
        latest_size(batch.drop_last(), id)
    }
}

proof fn lemma_latest_size_push(batch: Seq<(TabId, u32, u32)>, item: (TabId, u32, u32), id: u64)
    ensures
        latest_size(batch.push(item), id) == if item.0.0 == id {
            Some((item.1, item.2))
        } else {
            latest_size(batch, id)
        },
{
    assert(batch.push(item).drop_last() =~= batch);
}

fn index_of_tab(entries: &Vec<(TabId, u32, u32)>, id: u64) -> (k: Option<usize>)
    ensures
        match k {
            Some(k) => k < entries.len() && entries@[k as int].0.0 == id,
            None => forall|m: int| 0 <= m < entries.len() ==> entries@[m].0.0 != id,
        },
{
    let mut k: usize = 0;
    while k < entries.len()
        invariant
            k <= entries.len(),
            forall|m: int| 0 <= m < k ==> entries@[m].0.0 != id,
        decreases entries.len() - k,
    {
        if entries[k].0.0 == id {
            return Some(k);
        }
        k = k + 1;
    }
    None
}

/// Collapse a batch of resize requests into one per tab, each with the latest
/// size requested for that tab.
pub fn coalesce_resizes(batch: &Vec<(TabId, u32, u32)>) -> (r: Vec<(TabId, u32, u32)>)
    ensures
        forall|i: int, j: int| 0 <= i < j < r.len() ==> r@[i].0.0 != r@[j].0.0,
        forall|i: int|
            0 <= i < r.len() ==> latest_size(batch@, r@[i].0.0) == Some((r@[i].1, r@[i].2)),
        forall|id: u64|
            #[trigger] latest_size(batch@, id) is Some ==> exists|i: int|
                0 <= i < r.len() && r@[i].0.0 == id,
{
    let mut r: Vec<(TabId, u32, u32)> = Vec::new();
    let mut i: usize = 0;
    while i < batch.len()
        invariant
            i <= batch.len(),
            forall|a: int, b: int| 0 <= a < b < r.len() ==> r@[a].0.0 != r@[b].0.0,
            forall|a: int|
                0 <= a < r.len() ==> latest_size(batch@.take(i as int), r@[a].0.0) == Some(
                    (r@[a].1, r@[a].2),
                ),
            forall|id: u64|
                #[trigger] latest_size(batch@.take(i as int), id) is Some ==> exists|a: int|
                    0 <= a < r.len() && r@[a].0.0 == id,
        decreases batch.len() - i,
    {
        let item = batch[i];
        let ghost prefix = batch@.take(i as int);
        let ghost before = r@;
        assert(batch@.take(i + 1) =~= prefix.push(item));
        let pos: usize = match index_of_tab(&r, item.0.0) {
            Some(k) => {
                r[k] = item;
                k
            },
            None => {
                r.push(item);
                r.len() - 1
            },
        };
        proof {
            assert forall|a: int| 0 <= a < r.len() implies latest_size(
                batch@.take(i + 1),
                r@[a].0.0,
            ) == Some((r@[a].1, r@[a].2)) by {
                lemma_latest_size_push(prefix, item, r@[a].0.0);
                if r@[a].0.0 != item.0.0 {
                    assert(r@[a] == before[a]);
                }
            }
            assert forall|id: u64| #[trigger] latest_size(batch@.take(i + 1), id) is Some implies exists|
                a: int,
            | 0 <= a < r.len() && r@[a].0.0 == id by {
                lemma_latest_size_push(prefix, item, id);
                if id == item.0.0 {
                    assert(r@[pos as int] == item);
                } else {
                    assert(latest_size(prefix, id) is Some);
                    let w = choose|a: int| 0 <= a < before.len() && before[a].0.0 == id;
                    assert(r@[w] == before[w]);
                }
            }
        }
        i = i + 1;
    }
    assert(batch@.take(batch.len() as int) =~= batch@);
    r
}

/// Resize bookkeeping of the backend loop: at most one resize per tab is in
/// flight, and the sizes requested meanwhile collapse into the latest one.
pub struct CommunicationState {
    resizes_in_flight: HashSet<u64>,
    pending_resizes: HashMap<u64, TabSize>,
}

impl View for CommunicationState {
    type V = ResizeView;

    closed spec fn view(&self) -> ResizeView {
        ResizeView { in_flight: self.resizes_in_flight@, pending: self.pending_resizes@ }
    }
}

impl CommunicationState {
    /// No resize in flight and none pending.
    pub fn new() -> (s: Self)
        ensures
            s@.in_flight == Set::<u64>::empty(),
            s@.pending == Map::<u64, TabSize>::empty(),
            resize_view_wf(s@),
    {
        CommunicationState { resizes_in_flight: HashSet::new(), pending_resizes: HashMap::new() }
    }

    /// Record a request to resize a tab; `true` when it is to be sent now.
    pub fn request_resize(&mut self, tab: TabId, width: u32, height: u32) -> (send: bool)
        ensures
            (final(self)@, send) == spec_request_resize(old(self)@, tab.0, (width, height)),
    {
        let id = tab.0;
        if self.resizes_in_flight.contains(&id) {
            self.pending_resizes.insert(id, (width, height));
            false
        } else {
            self.resizes_in_flight.insert(id);
            true
        }
    }

    /// Record that Chromium acknowledged a tab's resize; the size to send
    /// next, if one was requested meanwhile.
    pub fn acknowledge_resize(&mut self, tab: TabId) -> (next: Option<TabSize>)
        ensures
            (final(self)@, next) == spec_acknowledge_resize(old(self)@, tab.0),
    {
        let id = tab.0;
        let ghost before = self@.in_flight;
        self.resizes_in_flight.remove(&id);
        match self.pending_resizes.remove(&id) {
            Some(size) => {
                self.resizes_in_flight.insert(id);
                assert(before.remove(id).insert(id) =~= before.insert(id));
                Some(size)
            },
            None => None,
        }
    }

    /// Record that sending a tab's resize failed: nothing is in flight for it.
    pub fn resize_send_failed(&mut self, tab: TabId)
        ensures
            final(self)@.in_flight == old(self)@.in_flight.remove(tab.0),
            final(self)@.pending == old(self)@.pending,
    {
        let id = tab.0;
        self.resizes_in_flight.remove(&id);
    }

    /// Drop all resize state of a closed tab.
    pub fn forget_tab(&mut self, tab: TabId)
        ensures
            final(self)@ == spec_forget_tab(old(self)@, tab.0),
    {
        let id = tab.0;
        self.resizes_in_flight.remove(&id);
        self.pending_resizes.remove(&id);
    }

    /// Apply a bridge event to the resize state: an acknowledgement releases
    /// the next size to send, a closed tab is forgotten, other events change
    /// nothing. The result is the tab and size to send next, if any.
    pub fn observe_event(&mut self, event: &IpcEvent) -> (next: Option<(TabId, TabSize)>)
        ensures
            match *event {
                IpcEvent::TabResizeAcknowledged { browsing_context_id, .. } => {
                    let (v, n) = spec_acknowledge_resize(old(self)@, browsing_context_id.0);
                    &&& final(self)@ == v
                    &&& next == match n {
                        Some(size) => Some((browsing_context_id, size)),
                        None => None::<(TabId, TabSize)>,
                    }
                },
                IpcEvent::TabClosed { browsing_context_id, .. } => {
                    &&& final(self)@ == spec_forget_tab(old(self)@, browsing_context_id.0)
                    &&& next is None
                },
                _ => final(self)@ == old(self)@ && next is None,
            },
    {
        match event {
            IpcEvent::TabResizeAcknowledged { browsing_context_id, .. } => {
                let tab = *browsing_context_id;
                match self.acknowledge_resize(tab) {
                    Some(size) => Some((tab, size)),
                    None => None,
                }
            },
            IpcEvent::TabClosed { browsing_context_id, .. } => {
                self.forget_tab(*browsing_context_id);
                None
            },
            _ => None,
        }
    }
}

} // verus!
