use velox_contracts::{Address, Party, PaymentStream, StreamError, StreamStatus, Transfer};

fn addr(tag: u8) -> Address {
    let mut strkey = [b'A'; 56];
    strkey[0] = b'G';
    strkey[55] = tag;
    Address::from_strkey(strkey)
}

fn ok<T>(r: Result<T, StreamError>) -> T {
    match r {
        Ok(v) => v,
        Err(e) => panic!("{}", e.message()),
    }
}

/// A stream of 10 tokens/sec from 1000 to 1100, 1000 tokens funded.
fn setup_stream() -> (PaymentStream, Address, Address, Address) {
    let sender = addr(b'S');
    let recipient = addr(b'R');
    let token = addr(b'T');
    let (stream, _deposit) = ok(PaymentStream::initialize(
        sender, recipient, token, 10_i128, 1000_u64, 1100_u64, 1000_i128, 1000,
    ));
    (stream, sender, recipient, token)
}

#[test]
fn initialize_sets_stream_to_active() {
    let (stream, _, _, _) = setup_stream();
    assert_eq!(stream.get_stream_status(), StreamStatus::Active);
}

#[test]
fn initialize_records_correct_total_funded() {
    let (stream, _, _, _) = setup_stream();
    assert_eq!(stream.get_total_funded(), 1000_i128);
}

#[test]
#[should_panic(expected = "start_time must be before end_time")]
fn initialize_panics_when_start_time_after_end_time() {
    ok(PaymentStream::initialize(addr(1), addr(2), addr(3), 10, 2000_u64, 1000_u64, 1000, 0));
}

#[test]
#[should_panic(expected = "rate must be greater than zero")]
fn initialize_panics_when_rate_is_zero() {
    ok(PaymentStream::initialize(addr(1), addr(2), addr(3), 0, 1000_u64, 2000_u64, 1000, 0));
}

#[test]
fn claimable_balance_is_zero_before_start_time() {
    let (stream, _, _, _) = setup_stream();
    assert_eq!(stream.get_claimable_balance(500), 0_i128);
}

#[test]
fn claimable_balance_reflects_elapsed_time() {
    let (stream, _, _, _) = setup_stream();
    assert_eq!(stream.get_claimable_balance(1050), 500_i128);
}

#[test]
fn claimable_balance_is_capped_at_total_funded() {
    let (stream, _, _, _) = setup_stream();
    assert_eq!(stream.get_claimable_balance(9999), 1000_i128);
}

#[test]
fn withdraw_reduces_claimable_balance_to_zero() {
    let (mut stream, _, _, _) = setup_stream();
    ok(stream.withdraw(1050));
    assert_eq!(stream.get_claimable_balance(1050), 0_i128);
}

#[test]
fn withdraw_updates_total_withdrawn() {
    let (mut stream, _, _, _) = setup_stream();
    ok(stream.withdraw(1050));
    assert_eq!(stream.get_total_withdrawn(), 500_i128);
}

#[test]
#[should_panic(expected = "nothing to withdraw")]
fn withdraw_panics_when_nothing_is_claimable() {
    let (mut stream, _, _, _) = setup_stream();
    ok(stream.withdraw(1000));
}

#[test]
fn cancel_sets_status_to_cancelled() {
    let (mut stream, _, _, _) = setup_stream();
    ok(stream.cancel(1050));
    assert_eq!(stream.get_stream_status(), StreamStatus::Cancelled);
}

#[test]
#[should_panic(expected = "stream is not active")]
fn cancel_panics_on_already_cancelled_stream() {
    let (mut stream, _, _, _) = setup_stream();
    ok(stream.cancel(1050));
    ok(stream.cancel(1050));
}

#[test]
fn top_up_increases_total_funded() {
    let (mut stream, _, _, _) = setup_stream();
    ok(stream.top_up(500_i128));
    assert_eq!(stream.get_total_funded(), 1500_i128);
}

#[test]
#[should_panic(expected = "top-up amount must be greater than zero")]
fn top_up_panics_when_amount_is_zero() {
    let (mut stream, _, _, _) = setup_stream();
    ok(stream.top_up(0_i128));
}

// ── further cases ────────────────────────────────────────────────────────────

#[test]
fn initialize_asks_sender_to_deposit_the_funding() {
    let sender = addr(b'S');
    let token = addr(b'T');
    let (_, deposit) = ok(PaymentStream::initialize(sender, addr(b'R'), token, 10, 1000, 1100, 1000, 1000));
    assert_eq!(
        deposit,
        Transfer { token, from: Party::Account(sender), to: Party::Contract, amount: 1000, via_allowance: false }
    );
}

#[test]
fn initialize_refuses_zero_funding() {
    let r = PaymentStream::initialize(addr(1), addr(2), addr(3), 10, 1000, 1100, 0, 0);
    assert_eq!(r.err(), Some(StreamError::FundedNotPositive));
}

#[test]
fn initialize_refuses_start_in_the_past() {
    let r = PaymentStream::initialize(addr(1), addr(2), addr(3), 10, 999, 1100, 100, 1000);
    assert_eq!(r.err(), Some(StreamError::StartInPast));
    assert_eq!(StreamError::StartInPast.message(), "start_time must not be in the past");
    let r = PaymentStream::initialize(addr(1), addr(2), addr(3), 10, 1000, 1100, 100, 1000);
    assert!(r.is_ok());
}

#[test]
fn initialize_checks_window_before_rate() {
    let r = PaymentStream::initialize(addr(1), addr(2), addr(3), 0, 1100, 1100, 0, 5000);
    assert_eq!(r.err(), Some(StreamError::StartNotBeforeEnd));
}

#[test]
fn withdraw_pays_the_recipient_from_escrow() {
    let (mut stream, _, recipient, token) = setup_stream();
    let t = ok(stream.withdraw(1030));
    assert_eq!(t, Transfer { token, from: Party::Contract, to: Party::Account(recipient), amount: 300, via_allowance: false });
    assert_eq!(stream.get_claimable_balance(1050), 200);
}

#[test]
fn withdraw_after_end_completes_the_stream() {
    let (mut stream, _, _, _) = setup_stream();
    let t = ok(stream.withdraw(1200));
    assert_eq!(t.amount, 1000);
    assert_eq!(stream.get_stream_status(), StreamStatus::Completed);
    assert_eq!(stream.withdraw(1300).err(), Some(StreamError::NotActive));
    assert_eq!(stream.top_up(5).err(), Some(StreamError::NotActive));
}

#[test]
fn withdraw_before_end_keeps_stream_active() {
    let (mut stream, _, _, _) = setup_stream();
    ok(stream.withdraw(1099));
    assert_eq!(stream.get_stream_status(), StreamStatus::Active);
    assert_eq!(stream.get_total_withdrawn(), 990);
}

#[test]
fn cancel_splits_escrow_between_recipient_and_sender() {
    let (mut stream, sender, recipient, token) = setup_stream();
    let ts = ok(stream.cancel(1050));
    assert_eq!(
        ts,
        vec![
            Transfer { token, from: Party::Contract, to: Party::Account(recipient), amount: 500, via_allowance: false },
            Transfer { token, from: Party::Contract, to: Party::Account(sender), amount: 500, via_allowance: false },
        ]
    );
    assert_eq!(stream.get_total_withdrawn(), 500);
}

#[test]
fn cancel_before_start_returns_everything_to_sender() {
    let (mut stream, sender, _, token) = setup_stream();
    let ts = ok(stream.cancel(900));
    assert_eq!(
        ts,
        vec![Transfer { token, from: Party::Contract, to: Party::Account(sender), amount: 1000, via_allowance: false }]
    );
}

#[test]
fn cancel_after_end_pays_only_the_recipient() {
    let (mut stream, _, recipient, token) = setup_stream();
    let ts = ok(stream.cancel(5000));
    assert_eq!(
        ts,
        vec![Transfer { token, from: Party::Contract, to: Party::Account(recipient), amount: 1000, via_allowance: false }]
    );
}

#[test]
fn top_up_extends_end_time_by_amount_over_rate() {
    let (mut stream, sender, _, token) = setup_stream();
    let t = ok(stream.top_up(505));
    assert_eq!(t, Transfer { token, from: Party::Account(sender), to: Party::Contract, amount: 505, via_allowance: false });
    assert_eq!(stream.get_end_time(), 1150);
    // The remainder of 505 / 10 is never streamed; it can only return to the sender on cancel.
    assert_eq!(stream.get_claimable_balance(9999), 1500);
}

#[test]
fn top_up_refuses_overflowing_funding() {
    let (mut stream, _, _, _) = setup_stream();
    assert_eq!(stream.top_up(i128::MAX).err(), Some(StreamError::Overflow));
    assert_eq!(stream.get_total_funded(), 1000);
}

#[test]
fn top_up_refuses_end_time_past_the_clock() {
    let mut stream = ok(PaymentStream::initialize(addr(1), addr(2), addr(3), 1, 0, u64::MAX - 1, 10, 0)).0;
    assert_eq!(stream.top_up(2).err(), Some(StreamError::Overflow));
    assert_eq!(stream.get_end_time(), u64::MAX - 1);
}

#[test]
fn huge_rate_is_capped_at_funding() {
    let stream = ok(PaymentStream::initialize(addr(1), addr(2), addr(3), i128::MAX, 0, u64::MAX, 77, 0)).0;
    assert_eq!(stream.get_claimable_balance(u64::MAX), 77);
}

#[test]
fn restore_rejects_withdrawals_beyond_funding() {
    let r = PaymentStream::restore(addr(1), addr(2), addr(3), 10, 0, 10, 100, 101, StreamStatus::Active);
    assert!(r.is_none());
    let r = PaymentStream::restore(addr(1), addr(2), addr(3), 10, 0, 10, 100, 50, StreamStatus::Completed);
    assert!(r.is_none());
    let s = PaymentStream::restore(addr(1), addr(2), addr(3), 10, 0, 10, 100, 50, StreamStatus::Active).unwrap();
    assert_eq!(s.get_claimable_balance(7), 20);
}

#[test]
fn error_messages_match_contract_text() {
    assert_eq!(StreamError::Overflow.message(), "arithmetic overflow");
    assert_eq!(StreamError::NotActive.message(), "stream is not active");
}

#[test]
fn claimable_balance_never_falls_as_time_passes() {
    let (stream, _, _, _) = setup_stream();
    let mut last = 0;
    for now in [0, 999, 1000, 1001, 1050, 1099, 1100, 1101, 5000, u64::MAX] {
        let c = stream.get_claimable_balance(now);
        assert!(c >= last);
        assert!(c <= stream.get_total_funded() - stream.get_total_withdrawn());
        last = c;
    }
}

#[test]
fn top_up_keeps_what_was_already_earned() {
    let (mut stream, _, _, _) = setup_stream();
    let before = stream.get_claimable_balance(1050);
    ok(stream.top_up(300));
    assert_eq!(stream.get_claimable_balance(1050), before);
    assert_eq!(stream.get_claimable_balance(1130), 1300);
}

#[test]
fn cancelled_stream_refuses_every_operation() {
    let (mut stream, _, _, _) = setup_stream();
    ok(stream.cancel(1020));
    assert_eq!(stream.withdraw(1050).err(), Some(StreamError::NotActive));
    assert_eq!(stream.top_up(10).err(), Some(StreamError::NotActive));
    assert_eq!(stream.cancel(1050).err(), Some(StreamError::NotActive));
    assert_eq!(stream.get_total_withdrawn(), 200);
}

#[test]
fn cancelled_stream_has_nothing_claimable() {
    let (mut stream, _, _, _) = setup_stream();
    ok(stream.cancel(1050));
    assert_eq!(stream.get_claimable_balance(1100), 0);
    assert_eq!(stream.get_claimable_balance(1050), 0);
}

#[test]
fn completed_stream_has_nothing_claimable() {
    let (mut stream, _, _, _) = setup_stream();
    ok(stream.withdraw(1100));
    assert_eq!(stream.get_stream_status(), StreamStatus::Completed);
    assert_eq!(stream.get_claimable_balance(5000), 0);
}

#[test]
fn recipient_signs_withdrawals_and_sender_the_rest() {
    let (stream, sender, recipient, _) = setup_stream();
    assert_eq!(stream.withdraw_signer(), recipient);
    assert_eq!(stream.cancel_signer(), sender);
    assert_eq!(stream.top_up_signer(), sender);
}

#[test]
fn stream_is_initialised_once() {
    let mut slot: Option<PaymentStream> = None;
    let t = ok(PaymentStream::initialize_once(&mut slot, addr(1), addr(2), addr(3), 10, 1000, 1100, 1000, 900));
    assert_eq!(t.amount, 1000);
    let r = PaymentStream::initialize_once(&mut slot, addr(4), addr(5), addr(6), 1, 1000, 1100, 1, 900);
    assert_eq!(r.err(), Some(StreamError::AlreadyInitialized));
    assert_eq!(StreamError::AlreadyInitialized.message(), "stream is already initialized");
    let s = slot.unwrap();
    assert_eq!(s.get_sender(), addr(1));
    assert_eq!(s.get_total_funded(), 1000);
    assert_eq!(s.get_rate_per_second(), 10);
    s.well_formed();
}

#[test]
fn refused_first_stream_initialisation_leaves_the_slot_empty() {
    let mut slot: Option<PaymentStream> = None;
    let r = PaymentStream::initialize_once(&mut slot, addr(1), addr(2), addr(3), 0, 1000, 1100, 1000, 900);
    assert_eq!(r.err(), Some(StreamError::RateNotPositive));
    assert!(slot.is_none());
}

#[test]
fn claimable_stops_changing_once_the_stream_has_ended() {
    let (stream, _, _, _) = setup_stream();
    assert_eq!(stream.get_claimable_balance(900), 0);
    assert_eq!(stream.get_claimable_balance(1000), 0);
    assert_eq!(stream.get_claimable_balance(1050), 500);
    assert_eq!(stream.get_claimable_balance(1100), 1000);
    assert_eq!(stream.get_claimable_balance(5000), 1000);
    assert_eq!(stream.get_claimable_balance(u64::MAX), 1000);
    assert_eq!(stream.get_total_withdrawn(), 0);
}
