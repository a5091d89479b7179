//! A simulated DMA request router for host-side testing: a routing table
//! from channels to the requests they carry, and the set of channels
//! claimed as wired up. [`Dma`] is the firmware-facing driver; its
//! [`FakeDma`] (reached through [`Dma::fake`]) lets a test inspect what
//! was claimed and allocated.
use vstd::prelude::*;
use crate::dma::{DmaChannel, DmaInstance, DmaRequest, DmaTrait};

verus! {

/// Implemented by any type that knows its own physical DMA channel: the
/// identity [`Dma::claim_channel`] registers.
pub trait DmaChannelToken {
    const INSTANCE: DmaInstance;
    const CHANNEL: u8;
}

/// The request the latest entry for `channel` in `table` routes it to.
pub open spec fn route_in(table: Seq<(DmaChannel, DmaRequest)>, channel: DmaChannel) -> Option<
    DmaRequest,
>
    decreases table.len(),
{
    if table.len() == 0 {
        None
    } else if table.last().0 == channel {
        Some(table.last().1)
    } else {
        route_in(table.drop_last(), channel)
    }
}

/// No channel has two entries in `table`.
pub open spec fn channels_distinct(table: Seq<(DmaChannel, DmaRequest)>) -> bool {
    forall|i: int, j: int|
        0 <= i < j < table.len() ==> #[trigger] table[i].0 != #[trigger] table[j].0
}

/// Appending an entry routes its channel and leaves every other channel
/// alone.
proof fn lemma_route_push(
    table: Seq<(DmaChannel, DmaRequest)>,
    entry: (DmaChannel, DmaRequest),
    channel: DmaChannel,
)
    ensures
        route_in(table.push(entry), channel) == if entry.0 == channel {
            Some(entry.1)
        } else {
            route_in(table, channel)
        },
{
    assert(table.push(entry).drop_last() =~= table);
}

/// A channel is routed exactly when it has an entry, and then to some
/// entry's request.
proof fn lemma_route_has_entry(table: Seq<(DmaChannel, DmaRequest)>, channel: DmaChannel)
    ensures
        route_in(table, channel) is None <==> forall|i: int|
            0 <= i < table.len() ==> #[trigger] table[i].0 != channel,
        route_in(table, channel) matches Some(r) ==> exists|i: int|
            0 <= i < table.len() && #[trigger] table[i] == (channel, r),
    decreases table.len(),
{
    if table.len() > 0 {
        let rest = table.drop_last();
        lemma_route_has_entry(rest, channel);
        if table.last().0 != channel {
            assert forall|i: int| 0 <= i < rest.len() implies #[trigger] rest[i] == table[i] by {}
            if route_in(table, channel) is None {
                assert forall|i: int| 0 <= i < table.len() implies #[trigger] table[i].0
                    != channel by {
                    if i < rest.len() {
                        assert(rest[i] == table[i]);
                    }
                }
            }
            if let Some(r) = route_in(table, channel) {
                let i = choose|i: int| 0 <= i < rest.len() && #[trigger] rest[i] == (channel, r);
                assert(table[i] == (channel, r));
            }
        } else {
            assert(table[table.len() - 1].0 == channel);
        }
    }
}

/// With distinct channels, each entry is the route of its channel.
proof fn lemma_route_entry(table: Seq<(DmaChannel, DmaRequest)>, i: int)
    requires
        channels_distinct(table),
        0 <= i < table.len(),
    ensures
        route_in(table, table[i].0) == Some(table[i].1),
    decreases table.len(),
{
    if i < table.len() - 1 {
        let rest = table.drop_last();
        assert(table[i].0 != table[table.len() - 1].0);
        assert(channels_distinct(rest)) by {
            assert forall|a: int, b: int| 0 <= a < b < rest.len() implies #[trigger] rest[a].0
                != #[trigger] rest[b].0 by {
                assert(table[a].0 != table[b].0);
            }
        }
        lemma_route_entry(rest, i);
        assert(rest[i] == table[i]);
    }
}

/// The simulated routing table and the channels claimed as wired up.
pub struct FakeDma {
    claimed: Vec<DmaChannel>,
    table: Vec<(DmaChannel, DmaRequest)>,
}

impl FakeDma {
    #[verifier::type_invariant]
    spec fn distinct(self) -> bool {
        channels_distinct(self.table@)
    }

    /// The request `channel` was allocated to carry, if any.
    pub closed spec fn route(&self, channel: DmaChannel) -> Option<DmaRequest> {
        route_in(self.table@, channel)
    }

    /// Whether `channel` was claimed via [`Dma::claim_channel`].
    pub closed spec fn claimed(&self, channel: DmaChannel) -> bool {
        self.claimed@.contains(channel)
    }

    /// The request currently routed to `channel`:
    /// [`DmaRequest::NoRequest`] if it was never allocated.
    pub fn request(&self, channel: DmaChannel) -> (request: DmaRequest)
        ensures
            request == match self.route(channel) {
                Some(r) => r,
                None => DmaRequest::NoRequest,
            },
    {
        proof {
            use_type_invariant(self);
            lemma_route_has_entry(self.table@, channel);
        }
        let mut i: usize = 0;
        while i < self.table.len()
            invariant
                i <= self.table@.len(),
                channels_distinct(self.table@),
                forall|j: int| 0 <= j < i ==> #[trigger] self.table@[j].0 != channel,
            decreases self.table@.len() - i,
        {
            let (c, r) = self.table[i];
            if c == channel {
                proof {
                    lemma_route_entry(self.table@, i as int);
                }
                return r;
            }
            i += 1;
        }
        DmaRequest::NoRequest
    }

    /// Whether `channel` was claimed via [`Dma::claim_channel`].
    pub fn is_claimed(&self, channel: DmaChannel) -> (claimed: bool)
        ensures
            claimed == self.claimed(channel),
    {
        let mut i: usize = 0;
        while i < self.claimed.len()
            invariant
                i <= self.claimed@.len(),
                forall|j: int| 0 <= j < i ==> #[trigger] self.claimed@[j] != channel,
            decreases self.claimed@.len() - i,
        {
            if self.claimed[i] == channel {
                return true;
            }
            i += 1;
        }
        false
    }
}

/// A simulated DMA request router driver.
pub struct Dma {
    state: FakeDma,
}

impl Dma {
    /// The simulated routing state this driver drives.
    pub closed spec fn state(&self) -> FakeDma {
        self.state
    }

    /// Creates a router with an empty routing table and no channel claimed.
    pub fn new() -> (dma: Self)
        ensures
            forall|c: DmaChannel| #[trigger] dma.state().route(c) is None,
            forall|c: DmaChannel| !#[trigger] dma.state().claimed(c),
    {
        let dma = Dma { state: FakeDma { claimed: Vec::new(), table: Vec::new() } };
        proof {
            assert forall|c: DmaChannel| #[trigger] dma.state().route(c) is None by {
                lemma_route_has_entry(dma.state.table@, c);
            }
        }
        dma
    }

    /// The test's view onto the simulated routing state.
    pub fn fake(&self) -> (fake: &FakeDma)
        ensures
            *fake == self.state(),
    {
        &self.state
    }

    /// Claims a channel-resource handle and registers its channel (from
    /// [`DmaChannelToken`]) as wired up.
    pub fn claim_channel<T: DmaChannelToken>(&mut self, channel: T)
        ensures
            forall|c: DmaChannel| #[trigger]
                final(self).state().claimed(c) == (old(self).state().claimed(c) || c == DmaChannel {
                    instance: T::INSTANCE,
                    channel: T::CHANNEL,
                }),
            forall|c: DmaChannel| #[trigger] final(self).state().route(c) == old(self).state().route(c),
    {
        proof {
            use_type_invariant(&self.state);
        }
        let ghost before = self.state.claimed@;
        let entry = DmaChannel::new(T::INSTANCE, T::CHANNEL);
        let mut claimed = Vec::new();
        std::mem::swap(&mut claimed, &mut self.state.claimed);
        claimed.push(entry);
        self.state.claimed = claimed;
        proof {
            let after = self.state.claimed@;
            assert forall|c: DmaChannel| #[trigger] self.state().claimed(c) == (old(self).state().claimed(c)
                || c == entry) by {
                if before.contains(c) {
                    let k = choose|k: int| 0 <= k < before.len() && before[k] == c;
                    assert(after[k] == c);
                }
                if c == entry {
                    assert(after[before.len() as int] == c);
                }
                if after.contains(c) {
                    let k = choose|k: int| 0 <= k < after.len() && after[k] == c;
                    if k < before.len() {
                        assert(before[k] == c);
                    }
                }
            }
        }
    }
}

impl DmaTrait for Dma {
    open spec fn route(&self, channel: DmaChannel) -> Option<DmaRequest> {
        self.state().route(channel)
    }

    fn allocate(&mut self, channel: DmaChannel, request: DmaRequest)
        ensures
            forall|c: DmaChannel| #[trigger] final(self).state().claimed(c) == old(self).state().claimed(c),
    {
        proof {
            use_type_invariant(&self.state);
            lemma_route_has_entry(self.state.table@, channel);
        }
        let ghost before = self.state.table@;
        let mut table = Vec::new();
        std::mem::swap(&mut table, &mut self.state.table);
        table.push((channel, request));
        proof {
            assert(channels_distinct(table@)) by {
                assert forall|a: int, b: int| 0 <= a < b < table@.len() implies #[trigger] table@[a].0
                    != #[trigger] table@[b].0 by {
                    if b == before.len() {
                        assert(before[a].0 != channel);
                    } else {
                        assert(before[a].0 != before[b].0);
                    }
                }
            }
            assert forall|c: DmaChannel| #[trigger] route_in(table@, c) == if c == channel {
                Some(request)
            } else {
                route_in(before, c)
            } by {
                lemma_route_push(before, (channel, request), c);
            }
        }
        self.state.table = table;
    }

    fn lookup_channel(&self, request: DmaRequest) -> (found: Option<DmaChannel>) {
        proof {
            use_type_invariant(&self.state);
        }
        if request == DmaRequest::NoRequest {
            return None;
        }
        let mut i: usize = 0;
        while i < self.state.table.len()
            invariant
                i <= self.state.table@.len(),
                channels_distinct(self.state.table@),
                request != DmaRequest::NoRequest,
                forall|j: int| 0 <= j < i ==> #[trigger] self.state.table@[j].1 != request,
            decreases self.state.table@.len() - i,
        {
            let (c, r) = self.state.table[i];
            if r == request {
                proof {
                    lemma_route_entry(self.state.table@, i as int);
                }
                return Some(c);
            }
            i += 1;
        }
        proof {
            assert forall|c: DmaChannel| #[trigger] self.route(c) != Some(request) by {
                lemma_route_has_entry(self.state.table@, c);
                if self.route(c) == Some(request) {
                    let k = choose|k: int|
                        0 <= k < self.state.table@.len() && #[trigger] self.state.table@[k] == (
                        c,
                        request,
                    );
                    assert(self.state.table@[k].1 == request);
                }
            }
        }
        None
    }
}

} // verus!
