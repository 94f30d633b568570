use vstd::prelude::*;

use crate::address::Address;

verus! {

/// Storage slots in which the registry contract keeps its index.
#[derive(Clone, Copy, Debug)]
pub enum RegistryKey {
    Stream(Address),
    Schedule(Address),
    AllStreams,
    AllSchedules,
    Factory,
}

/// A registered payment stream.
#[derive(Clone, Copy, Debug)]
pub struct StreamEntry {
    pub stream_id: Address,
    pub sender: Address,
    pub recipient: Address,
    pub registered_at: u64,
}

/// A registered recurring-payment schedule.
#[derive(Clone, Copy, Debug)]
pub struct ScheduleEntry {
    pub schedule_id: Address,
    pub sender: Address,
    pub recipient: Address,
    pub registered_at: u64,
}

/// The abstract state of the registry: every stream and every schedule ever registered,
/// in the order of registration, and the factory it serves, fixed when the registry is
/// set up.
pub struct RegistryModel {
    pub streams: Seq<StreamEntry>,
    pub schedules: Seq<ScheduleEntry>,
    pub factory: Address,
}

impl RegistryModel {
    /// Who must authorise registering a stream: the registry's factory, and no one else.
    pub open spec fn register_stream_signer(self) -> Address {
        self.factory
    }

    /// Who must authorise registering `entry` as a schedule: the entry's sender.
    pub open spec fn register_schedule_signer(self, entry: ScheduleEntry) -> Address {
        entry.sender
    }
}

/// The most recently registered stream entry with id `id`, if any.
pub open spec fn latest_stream(entries: Seq<StreamEntry>, id: Address) -> Option<StreamEntry>
    decreases entries.len(),
{
    if entries.len() == 0 {
        None
    } else if entries.last().stream_id == id {
        Some(entries.last())
    } else {
        latest_stream(entries.drop_last(), id)
    }
}

/// The most recently registered schedule entry with id `id`, if any.
pub open spec fn latest_schedule(entries: Seq<ScheduleEntry>, id: Address) -> Option<
    ScheduleEntry,
>
    decreases entries.len(),
{
    if entries.len() == 0 {
        None
    } else if entries.last().schedule_id == id {
        Some(entries.last())
    } else {
        latest_schedule(entries.drop_last(), id)
    }
}

/// Whether a stream entry was registered by `sender`.
pub open spec fn sent_by(sender: Address) -> spec_fn(StreamEntry) -> bool {
    |e: StreamEntry| e.sender == sender
}

/// Whether a stream entry pays `recipient`.
pub open spec fn paying(recipient: Address) -> spec_fn(StreamEntry) -> bool {
    |e: StreamEntry| e.recipient == recipient
}

/// An on-chain index of payment streams and recurring schedules.  It holds no funds and
/// enforces no payment logic.
pub struct VeloxRegistry {
    streams: Vec<StreamEntry>,
    schedules: Vec<ScheduleEntry>,
    factory: Address,
}

impl View for VeloxRegistry {
    type V = RegistryModel;

    closed spec fn view(&self) -> RegistryModel {
        RegistryModel { streams: self.streams@, schedules: self.schedules@, factory: self.factory }
    }
}

impl VeloxRegistry {
    /// A registry with nothing registered that serves `factory`: only that factory may
    /// ever register streams in it.
    pub fn new(factory: Address) -> (r: VeloxRegistry)
        ensures
            r@.streams == Seq::<StreamEntry>::empty(),
            r@.schedules == Seq::<ScheduleEntry>::empty(),
            r@.factory == factory,
    {
        VeloxRegistry { streams: Vec::new(), schedules: Vec::new(), factory }
    }

    /// A registry holding the given entries, in the given order, serving `factory`.
    pub fn restore(
        streams: Vec<StreamEntry>,
        schedules: Vec<ScheduleEntry>,
        factory: Address,
    ) -> (r: VeloxRegistry)
        ensures
            r@.streams == streams@,
            r@.schedules == schedules@,
            r@.factory == factory,
    {
        VeloxRegistry { streams, schedules, factory }
    }

    /// The factory the registry serves.
    pub fn get_factory(&self) -> (f: Address)
        ensures
            f == self@.factory,
    {
        self.factory
    }

    /// The account whose authorisation registering a stream needs.
    pub fn register_stream_signer(&self) -> (a: Address)
        ensures
            a == self@.register_stream_signer(),
    {
        self.factory
    }

    /// The account whose authorisation registering `entry` as a schedule needs.
    pub fn register_schedule_signer(&self, entry: &ScheduleEntry) -> (a: Address)
        ensures
            a == self@.register_schedule_signer(*entry),
    {
        entry.sender
    }

    /// Adds a stream entry at the end of the index.
    pub fn register_stream(&mut self, entry: StreamEntry)
        ensures
            final(self)@.streams == old(self)@.streams.push(entry),
            final(self)@.schedules == old(self)@.schedules,
            final(self)@.factory == old(self)@.factory,
    {
        self.streams.push(entry);
    }

    /// Adds a schedule entry at the end of the index.
    pub fn register_schedule(&mut self, entry: ScheduleEntry)
        ensures
            final(self)@.schedules == old(self)@.schedules.push(entry),
            final(self)@.streams == old(self)@.streams,
            final(self)@.factory == old(self)@.factory,
    {
        self.schedules.push(entry);
    }

    /// Every registered stream, in the order of registration.
    pub fn get_all_streams(&self) -> (r: Vec<StreamEntry>)
        ensures
            r@ == self@.streams,
    {
        let mut out: Vec<StreamEntry> = Vec::new();
        let n = self.streams.len();
        let mut i: usize = 0;
        while i < n
            invariant
                n == self.streams@.len(),
                i <= n,
                out@ == self.streams@.take(i as int),
            decreases n - i,
        {
            out.push(self.streams[i]);
            assert(self.streams@.take(i + 1) =~= self.streams@.take(i as int).push(
                self.streams@[i as int],
            ));
            i = i + 1;
        }
        assert(self.streams@.take(n as int) =~= self.streams@);
        out
    }

    /// Every registered schedule, in the order of registration.
    pub fn get_all_schedules(&self) -> (r: Vec<ScheduleEntry>)
        ensures
            r@ == self@.schedules,
    {
        let mut out: Vec<ScheduleEntry> = Vec::new();
        let n = self.schedules.len();
        let mut i: usize = 0;
        while i < n
            invariant
                n == self.schedules@.len(),
                i <= n,
                out@ == self.schedules@.take(i as int),
            decreases n - i,
        {
            out.push(self.schedules[i]);
            assert(self.schedules@.take(i + 1) =~= self.schedules@.take(i as int).push(
                self.schedules@[i as int],
            ));
            i = i + 1;
        }
        assert(self.schedules@.take(n as int) =~= self.schedules@);
        out
    }

    /// The entry most recently registered for stream `stream_id`, if any.
    pub fn get_stream(&self, stream_id: Address) -> (r: Option<StreamEntry>)
        ensures
            r == latest_stream(self@.streams, stream_id),
    {
        let mut i = self.streams.len();
        assert(self.streams@.take(i as int) =~= self.streams@);
        while i > 0
            invariant
                i <= self.streams@.len(),
                latest_stream(self.streams@, stream_id) == latest_stream(
                    self.streams@.take(i as int),
                    stream_id,
                ),
            decreases i,
        {
            let e = self.streams[i - 1];
            let prefix = Ghost(self.streams@.take(i as int));
            assert(prefix@.drop_last() =~= self.streams@.take(i - 1));
            assert(prefix@.last() == e);
            if e.stream_id.same_as(&stream_id) {
                return Some(e);
            }
            i = i - 1;
        }
        assert(self.streams@.take(0) =~= Seq::<StreamEntry>::empty());
        None
    }

    /// The entry most recently registered for schedule `schedule_id`, if any.
    pub fn get_schedule(&self, schedule_id: Address) -> (r: Option<ScheduleEntry>)
        ensures
            r == latest_schedule(self@.schedules, schedule_id),
    {
        let mut i = self.schedules.len();
        assert(self.schedules@.take(i as int) =~= self.schedules@);
        while i > 0
            invariant
                i <= self.schedules@.len(),
                latest_schedule(self.schedules@, schedule_id) == latest_schedule(
                    self.schedules@.take(i as int),
                    schedule_id,
                ),
            decreases i,
        {
            let e = self.schedules[i - 1];
            let prefix = Ghost(self.schedules@.take(i as int));
            assert(prefix@.drop_last() =~= self.schedules@.take(i - 1));
            assert(prefix@.last() == e);
            if e.schedule_id.same_as(&schedule_id) {
                return Some(e);
            }
            i = i - 1;
        }
        assert(self.schedules@.take(0) =~= Seq::<ScheduleEntry>::empty());
        None
    }

    /// Every registered stream whose sender is `sender`, in the order of registration.
    pub fn list_streams_by_sender(&self, sender: Address) -> (r: Vec<StreamEntry>)
        ensures
            r@ == self@.streams.filter(sent_by(sender)),
    {
        let mut out: Vec<StreamEntry> = Vec::new();
        let n = self.streams.len();
        let mut i: usize = 0;
        while i < n
            invariant
                n == self.streams@.len(),
                i <= n,
                out@ == self.streams@.take(i as int).filter(sent_by(sender)),
            decreases n - i,
        {
            let e = self.streams[i];
            proof {
                reveal_with_fuel(Seq::filter, 1);
                let next = self.streams@.take(i + 1);
                assert(next.drop_last() =~= self.streams@.take(i as int));
                assert(next.last() == e);
            }
            if e.sender.same_as(&sender) {
                out.push(e);
            }
            i = i + 1;
        }
        assert(self.streams@.take(n as int) =~= self.streams@);
        out
    }

    /// Every registered stream whose recipient is `recipient`, in the order of
    /// registration.
    pub fn list_streams_by_recipient(&self, recipient: Address) -> (r: Vec<StreamEntry>)
        ensures
            r@ == self@.streams.filter(paying(recipient)),
    {
        let mut out: Vec<StreamEntry> = Vec::new();
        let n = self.streams.len();
        let mut i: usize = 0;
        while i < n
            invariant
                n == self.streams@.len(),
                i <= n,
                out@ == self.streams@.take(i as int).filter(paying(recipient)),
            decreases n - i,
        {
            let e = self.streams[i];
            proof {
                reveal_with_fuel(Seq::filter, 1);
                let next = self.streams@.take(i + 1);
                assert(next.drop_last() =~= self.streams@.take(i as int));
                assert(next.last() == e);
            }
            if e.recipient.same_as(&recipient) {
                out.push(e);
            }
            i = i + 1;
        }
        assert(self.streams@.take(n as int) =~= self.streams@);
        out
    }
}

/// Reading a stream back after registering it gives the entry just registered, and the
/// entries of every other id are untouched.
pub proof fn lemma_registered_stream_reads_back(
    entries: Seq<StreamEntry>,
    entry: StreamEntry,
    other: Address,
)
    ensures
        latest_stream(entries.push(entry), entry.stream_id) == Some(entry),
        other != entry.stream_id ==> latest_stream(entries.push(entry), other) == latest_stream(
            entries,
            other,
        ),
{
    assert(entries.push(entry).drop_last() =~= entries);
}

/// Reading a schedule back after registering it gives the entry just registered, and the
/// entries of every other id are untouched.
pub proof fn lemma_registered_schedule_reads_back(
    entries: Seq<ScheduleEntry>,
    entry: ScheduleEntry,
    other: Address,
)
    ensures
        latest_schedule(entries.push(entry), entry.schedule_id) == Some(entry),
        other != entry.schedule_id ==> latest_schedule(entries.push(entry), other)
            == latest_schedule(entries, other),
{
    assert(entries.push(entry).drop_last() =~= entries);
}

/// A lookup finds only entries that were registered, under the id looked up; and any id
/// that was ever registered is found.
pub proof fn lemma_lookup_finds_registered(entries: Seq<StreamEntry>, id: Address)
    ensures
        latest_stream(entries, id) matches Some(e) ==> e.stream_id == id && entries.contains(e),
        (exists|i: int| 0 <= i < entries.len() && #[trigger] entries[i].stream_id == id)
            ==> latest_stream(entries, id) is Some,
    decreases entries.len(),
{
    if entries.len() > 0 {
        let rest = entries.drop_last();
        lemma_lookup_finds_registered(rest, id);
        if let Some(e) = latest_stream(rest, id) {
            if entries.last().stream_id != id {
                let k = choose|k: int| 0 <= k < rest.len() && rest[k] == e;
                assert(entries[k] == e);
            }
        }
        if entries.last().stream_id != id {
            if exists|i: int| 0 <= i < entries.len() && #[trigger] entries[i].stream_id == id {
                let i = choose|i: int| 0 <= i < entries.len() && #[trigger] entries[i].stream_id
                    == id;
                assert(rest[i].stream_id == id);
            }
        } else {
            assert(entries[entries.len() - 1] == entries.last());
        }
    }
}

/// The streams listed for a sender are exactly the registered streams of that sender, in
/// the order of registration: nothing else, and none left out.
pub proof fn lemma_sender_listing_is_exact(entries: Seq<StreamEntry>, sender: Address)
    ensures
        forall|i: int|
            0 <= i < entries.filter(sent_by(sender)).len() ==> (#[trigger] entries.filter(
                sent_by(sender),
            )[i]).sender == sender && entries.contains(entries.filter(sent_by(sender))[i]),
        forall|e: StreamEntry|
            #[trigger] entries.contains(e) && e.sender == sender ==> entries.filter(
                sent_by(sender),
            ).contains(e),
        entries.filter(sent_by(sender)).len() <= entries.len(),
{
    let listed = entries.filter(sent_by(sender));
    assert forall|i: int| 0 <= i < listed.len() implies (#[trigger] listed[i]).sender == sender
        && entries.contains(listed[i]) by {
        entries.lemma_filter_pred(sent_by(sender), i);
        assert(listed.contains(listed[i]));
        entries.lemma_filter_contains_rev(sent_by(sender), listed[i]);
    }
    assert forall|e: StreamEntry| #[trigger]
        entries.contains(e) && e.sender == sender implies listed.contains(e) by {
        let k = choose|k: int| 0 <= k < entries.len() && entries[k] == e;
        entries.lemma_filter_contains(sent_by(sender), k);
    }
}

/// Registering a stream adds it to the end of its sender's listing and to the end of its
/// recipient's listing, and leaves every other listing as it was.
pub proof fn lemma_registration_extends_listings(
    entries: Seq<StreamEntry>,
    entry: StreamEntry,
    who: Address,
)
    ensures
        entries.push(entry).filter(sent_by(who)) == (if entry.sender == who {
            entries.filter(sent_by(who)).push(entry)
        } else {
            entries.filter(sent_by(who))
        }),
        entries.push(entry).filter(paying(who)) == (if entry.recipient == who {
            entries.filter(paying(who)).push(entry)
        } else {
            entries.filter(paying(who))
        }),
{
    reveal_with_fuel(Seq::filter, 1);
    assert(entries.push(entry).drop_last() =~= entries);
    assert(entries.push(entry).last() == entry);
}

/// Registering a stream needs the registry's factory's authorisation and no one else's,
/// and no registration changes which factory that is.
pub proof fn lemma_registry_answers_only_to_its_factory(
    m: RegistryModel,
    stream: StreamEntry,
    schedule: ScheduleEntry,
)
    ensures
        m.register_stream_signer() == m.factory,
        (RegistryModel { streams: m.streams.push(stream), ..m }).register_stream_signer()
            == m.factory,
        (RegistryModel { schedules: m.schedules.push(schedule), ..m }).register_stream_signer()
            == m.factory,
{
}


} // verus!
