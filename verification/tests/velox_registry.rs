use velox_contracts::{Address, ScheduleEntry, StreamEntry, VeloxRegistry};

fn addr(tag: u8) -> Address {
    let mut strkey = [b'D'; 56];
    strkey[0] = b'G';
    strkey[55] = tag;
    Address::from_strkey(strkey)
}

/// The factory every test registry serves.
fn factory() -> Address {
    addr(b'F')
}

/// Hands out distinct addresses, one per call.
struct Addresses {
    next: u8,
}

impl Addresses {
    fn new() -> Self {
        Addresses { next: 0 }
    }

    fn generate(&mut self) -> Address {
        self.next += 1;
        addr(self.next)
    }
}

#[test]
fn register_stream_stores_entry() {
    let mut gen = Addresses::new();
    let mut registry = VeloxRegistry::new(factory());
    let sender = gen.generate();
    let recipient = gen.generate();
    let stream_id = gen.generate();
    let entry = StreamEntry { stream_id, sender, recipient, registered_at: 1000 };
    registry.register_stream(entry);
    let stored = registry.get_stream(stream_id).unwrap();
    assert_eq!(stored.sender, sender);
    assert_eq!(stored.recipient, recipient);
}

#[test]
fn register_stream_appears_in_get_all_streams() {
    let mut gen = Addresses::new();
    let mut registry = VeloxRegistry::new(factory());
    let entry = StreamEntry {
        stream_id: gen.generate(),
        sender: gen.generate(),
        recipient: gen.generate(),
        registered_at: 1000,
    };
    registry.register_stream(entry);
    assert_eq!(registry.get_all_streams().len(), 1);
}

#[test]
fn multiple_streams_are_all_stored() {
    let mut gen = Addresses::new();
    let mut registry = VeloxRegistry::new(factory());
    for _ in 0..3 {
        let entry = StreamEntry {
            stream_id: gen.generate(),
            sender: gen.generate(),
            recipient: gen.generate(),
            registered_at: 1000,
        };
        registry.register_stream(entry);
    }
    assert_eq!(registry.get_all_streams().len(), 3);
}

#[test]
fn list_streams_by_sender_returns_only_matching_streams() {
    let mut gen = Addresses::new();
    let mut registry = VeloxRegistry::new(factory());
    let sender_a = gen.generate();
    let sender_b = gen.generate();
    for sender in [sender_a, sender_b, sender_a] {
        registry.register_stream(StreamEntry {
            stream_id: gen.generate(),
            sender,
            recipient: gen.generate(),
            registered_at: 1000,
        });
    }
    let result = registry.list_streams_by_sender(sender_a);
    assert_eq!(result.len(), 2);
}

#[test]
fn list_streams_by_sender_returns_empty_for_unknown_sender() {
    let mut gen = Addresses::new();
    let registry = VeloxRegistry::new(factory());
    let unknown = gen.generate();
    assert_eq!(registry.list_streams_by_sender(unknown).len(), 0);
}

#[test]
fn list_streams_by_recipient_returns_only_matching_streams() {
    let mut gen = Addresses::new();
    let mut registry = VeloxRegistry::new(factory());
    let recipient_a = gen.generate();
    registry.register_stream(StreamEntry {
        stream_id: gen.generate(),
        sender: gen.generate(),
        recipient: recipient_a,
        registered_at: 1000,
    });
    registry.register_stream(StreamEntry {
        stream_id: gen.generate(),
        sender: gen.generate(),
        recipient: gen.generate(),
        registered_at: 1000,
    });
    assert_eq!(registry.list_streams_by_recipient(recipient_a).len(), 1);
}

#[test]
fn register_schedule_stores_entry() {
    let mut gen = Addresses::new();
    let mut registry = VeloxRegistry::new(factory());
    let sender = gen.generate();
    let recipient = gen.generate();
    let schedule_id = gen.generate();
    registry.register_schedule(ScheduleEntry { schedule_id, sender, recipient, registered_at: 2000 });
    let stored = registry.get_schedule(schedule_id).unwrap();
    assert_eq!(stored.sender, sender);
    assert_eq!(stored.recipient, recipient);
}

#[test]
fn get_stream_returns_none_for_unknown_id() {
    let mut gen = Addresses::new();
    let registry = VeloxRegistry::new(factory());
    assert!(registry.get_stream(gen.generate()).is_none());
}

#[test]
fn get_schedule_returns_none_for_unknown_id() {
    let mut gen = Addresses::new();
    let registry = VeloxRegistry::new(factory());
    assert!(registry.get_schedule(gen.generate()).is_none());
}

// ── further cases ────────────────────────────────────────────────────────────

#[test]
fn re_registering_an_id_reads_back_the_latest_entry() {
    let mut registry = VeloxRegistry::new(factory());
    let id = addr(b'I');
    registry.register_stream(StreamEntry { stream_id: id, sender: addr(1), recipient: addr(2), registered_at: 1 });
    registry.register_stream(StreamEntry { stream_id: addr(b'J'), sender: addr(1), recipient: addr(2), registered_at: 2 });
    registry.register_stream(StreamEntry { stream_id: id, sender: addr(3), recipient: addr(4), registered_at: 3 });
    let stored = registry.get_stream(id).unwrap();
    assert_eq!(stored.registered_at, 3);
    assert_eq!(stored.sender, addr(3));
    assert_eq!(registry.get_stream(addr(b'J')).unwrap().registered_at, 2);
    assert_eq!(registry.get_all_streams().len(), 3);
}

#[test]
fn listings_keep_registration_order() {
    let mut registry = VeloxRegistry::new(factory());
    for (i, sender) in [addr(1), addr(2), addr(1), addr(1)].into_iter().enumerate() {
        registry.register_stream(StreamEntry {
            stream_id: addr(10 + i as u8),
            sender,
            recipient: addr(9),
            registered_at: i as u64,
        });
    }
    let times: Vec<u64> = registry.list_streams_by_sender(addr(1)).iter().map(|e| e.registered_at).collect();
    assert_eq!(times, vec![0, 2, 3]);
    assert_eq!(registry.list_streams_by_recipient(addr(9)).len(), 4);
    assert_eq!(registry.list_streams_by_recipient(addr(1)).len(), 0);
}

#[test]
fn schedules_and_streams_are_indexed_apart() {
    let mut registry = VeloxRegistry::new(factory());
    registry.register_schedule(ScheduleEntry { schedule_id: addr(1), sender: addr(2), recipient: addr(3), registered_at: 5 });
    assert_eq!(registry.get_all_schedules().len(), 1);
    assert_eq!(registry.get_all_streams().len(), 0);
    assert!(registry.get_stream(addr(1)).is_none());
}

#[test]
fn restored_registry_keeps_entries() {
    let e = StreamEntry { stream_id: addr(1), sender: addr(2), recipient: addr(3), registered_at: 5 };
    let registry = VeloxRegistry::restore(vec![e], Vec::new(), factory());
    assert_eq!(registry.get_stream(addr(1)).unwrap().registered_at, 5);
    assert_eq!(registry.get_factory(), factory());
}

#[test]
fn registry_answers_only_to_its_factory() {
    let mut registry = VeloxRegistry::new(factory());
    assert_eq!(registry.get_factory(), factory());
    assert_eq!(registry.register_stream_signer(), factory());
    let e = StreamEntry { stream_id: addr(1), sender: addr(2), recipient: addr(3), registered_at: 5 };
    registry.register_stream(e);
    assert_eq!(registry.register_stream_signer(), factory());
    assert_ne!(registry.register_stream_signer(), e.sender);
    assert_eq!(registry.get_factory(), factory());
    let s = ScheduleEntry { schedule_id: addr(1), sender: addr(2), recipient: addr(3), registered_at: 5 };
    assert_eq!(registry.register_schedule_signer(&s), addr(2));
}

#[test]
fn each_registry_serves_the_factory_it_was_set_up_with() {
    let a = VeloxRegistry::new(addr(b'A'));
    let b = VeloxRegistry::new(addr(b'B'));
    assert_eq!(a.register_stream_signer(), addr(b'A'));
    assert_eq!(b.register_stream_signer(), addr(b'B'));
}
