use velox_contracts::{Address, Party, RecurringPayment, ScheduleError, ScheduleStatus, Transfer};

fn addr(tag: u8) -> Address {
    let mut strkey = [b'B'; 56];
    strkey[0] = b'G';
    strkey[55] = tag;
    Address::from_strkey(strkey)
}

fn ok<T>(r: Result<T, ScheduleError>) -> T {
    match r {
        Ok(v) => v,
        Err(e) => panic!("{}", e.message()),
    }
}

/// A weekly schedule set up at 1_000_000: 100 tokens every 604800 seconds.
fn setup_schedule() -> (RecurringPayment, Address, Address, Address) {
    let sender = addr(b'S');
    let recipient = addr(b'R');
    let token = addr(b'T');
    let schedule = ok(RecurringPayment::initialize(
        sender,
        recipient,
        token,
        100_i128,
        604_800_u64,
        1_604_800_u64,
        1_000_000,
    ));
    (schedule, sender, recipient, token)
}

#[test]
fn initialize_sets_schedule_to_active() {
    let (schedule, _, _, _) = setup_schedule();
    assert_eq!(schedule.get_schedule_status(), ScheduleStatus::Active);
}

#[test]
fn initialize_stores_correct_amount() {
    let (schedule, _, _, _) = setup_schedule();
    assert_eq!(schedule.get_amount(), 100_i128);
}

#[test]
fn initialize_stores_correct_interval() {
    let (schedule, _, _, _) = setup_schedule();
    assert_eq!(schedule.get_interval(), 604_800_u64);
}

#[test]
#[should_panic(expected = "amount must be greater than zero")]
fn initialize_panics_when_amount_is_zero() {
    ok(RecurringPayment::initialize(addr(1), addr(2), addr(3), 0, 604_800_u64, 1_604_800_u64, 1_000_000));
}

#[test]
#[should_panic(expected = "interval must be greater than zero")]
fn initialize_panics_when_interval_is_zero() {
    ok(RecurringPayment::initialize(addr(1), addr(2), addr(3), 100, 0_u64, 1_604_800_u64, 1_000_000));
}

#[test]
fn execute_payment_advances_next_payment_time() {
    let (mut schedule, _, _, _) = setup_schedule();
    ok(schedule.execute_payment(1_604_800));
    assert_eq!(schedule.get_next_payment_time(), 1_604_800_u64 + 604_800_u64);
}

#[test]
#[should_panic(expected = "payment is not due yet")]
fn execute_payment_panics_before_due_time() {
    let (mut schedule, _, _, _) = setup_schedule();
    ok(schedule.execute_payment(1_000_001));
}

#[test]
fn tests_cancel_sets_status_to_cancelled() {
    let (mut schedule, _, _, _) = setup_schedule();
    ok(schedule.cancel());
    assert_eq!(schedule.get_schedule_status(), ScheduleStatus::Cancelled);
}

#[test]
#[should_panic(expected = "schedule is not active")]
fn cancel_panics_on_already_cancelled_schedule() {
    let (mut schedule, _, _, _) = setup_schedule();
    ok(schedule.cancel());
    ok(schedule.cancel());
}

#[test]
#[should_panic(expected = "schedule is not active")]
fn execute_payment_panics_on_cancelled_schedule() {
    let (mut schedule, _, _, _) = setup_schedule();
    ok(schedule.cancel());
    ok(schedule.execute_payment(1_604_800));
}

// ── further cases ────────────────────────────────────────────────────────────

#[test]
fn initialize_refuses_first_payment_in_the_past() {
    let r = RecurringPayment::initialize(addr(1), addr(2), addr(3), 100, 10, 999, 1000);
    assert_eq!(r.err(), Some(ScheduleError::FirstPaymentInPast));
    assert_eq!(ScheduleError::FirstPaymentInPast.message(), "first payment time must be in the future");
}

#[test]
fn first_payment_may_fall_due_immediately() {
    let mut schedule = ok(RecurringPayment::initialize(addr(1), addr(2), addr(3), 5, 10, 1000, 1000));
    ok(schedule.execute_payment(1000));
    assert_eq!(schedule.get_next_payment_time(), 1010);
}

#[test]
fn execute_payment_moves_amount_from_sender_to_recipient() {
    let (mut schedule, sender, recipient, token) = setup_schedule();
    let t = ok(schedule.execute_payment(2_000_000));
    assert_eq!(
        t,
        Transfer { token, from: Party::Account(sender), to: Party::Account(recipient), amount: 100, via_allowance: false }
    );
}

#[test]
fn late_payments_catch_up_one_interval_at_a_time() {
    let (mut schedule, _, _, _) = setup_schedule();
    let late = 1_604_800 + 3 * 604_800;
    for _ in 0..4 {
        ok(schedule.execute_payment(late));
    }
    assert_eq!(schedule.execute_payment(late).err(), Some(ScheduleError::NotDue));
    assert_eq!(schedule.get_next_payment_time(), 1_604_800 + 4 * 604_800);
}

#[test]
fn execute_payment_refuses_overflowing_due_time() {
    let mut schedule = ok(RecurringPayment::initialize(addr(1), addr(2), addr(3), 5, 10, u64::MAX - 5, 0));
    assert_eq!(schedule.execute_payment(u64::MAX).err(), Some(ScheduleError::Overflow));
    assert_eq!(schedule.get_next_payment_time(), u64::MAX - 5);
}

#[test]
fn schedule_info_reports_every_field() {
    let (mut schedule, sender, recipient, token) = setup_schedule();
    ok(schedule.execute_payment(1_604_800));
    let info = schedule.get_schedule_info();
    assert_eq!(info.sender, sender);
    assert_eq!(info.recipient, recipient);
    assert_eq!(info.token, token);
    assert_eq!(info.amount, 100);
    assert_eq!(info.interval, 604_800);
    assert_eq!(info.next_payment_time, 2_209_600);
    assert_eq!(info.status, ScheduleStatus::Active);
}

#[test]
fn restore_rejects_zero_interval() {
    assert!(RecurringPayment::restore(addr(1), addr(2), addr(3), 5, 0, 10, ScheduleStatus::Active, addr(1)).is_none());
    assert!(RecurringPayment::restore(addr(1), addr(2), addr(3), 0, 1, 10, ScheduleStatus::Active, addr(1)).is_none());
    let s = RecurringPayment::restore(addr(1), addr(2), addr(3), 5, 1, 10, ScheduleStatus::Cancelled, addr(4)).unwrap();
    assert_eq!(s.get_schedule_status(), ScheduleStatus::Cancelled);
}

#[test]
fn sender_operates_until_another_operator_is_designated() {
    let (mut schedule, sender, _, _) = setup_schedule();
    assert_eq!(schedule.execute_signer(), sender);
    assert_eq!(schedule.cancel_signer(), sender);
    assert_eq!(schedule.set_operator_signer(), sender);
    let operator = addr(b'O');
    ok(schedule.set_operator(operator));
    assert_eq!(schedule.execute_signer(), operator);
    assert_eq!(schedule.get_operator(), operator);
    assert_eq!(schedule.cancel_signer(), sender);
    ok(schedule.execute_payment(1_604_800));
    assert_eq!(schedule.get_next_payment_time(), 2_209_600);
}

#[test]
fn cancelled_schedule_keeps_its_operator() {
    let (mut schedule, sender, _, _) = setup_schedule();
    ok(schedule.cancel());
    assert_eq!(schedule.set_operator(addr(b'O')).err(), Some(ScheduleError::NotActive));
    assert_eq!(schedule.get_operator(), sender);
}

#[test]
fn designated_operator_pays_through_the_senders_allowance() {
    let (mut schedule, sender, recipient, token) = setup_schedule();
    let operator = addr(b'O');
    ok(schedule.set_operator(operator));
    let t = ok(schedule.execute_payment(1_604_800));
    assert_eq!(
        t,
        Transfer {
            token,
            from: Party::Account(sender),
            to: Party::Account(recipient),
            amount: 100,
            via_allowance: true,
        }
    );
    ok(schedule.set_operator(sender));
    let t = ok(schedule.execute_payment(2_209_600));
    assert!(!t.via_allowance);
}

#[test]
fn schedule_is_initialised_once() {
    let mut slot: Option<RecurringPayment> = None;
    ok(RecurringPayment::initialize_once(&mut slot, addr(1), addr(2), addr(3), 100, 60, 1000, 900));
    let r = RecurringPayment::initialize_once(&mut slot, addr(4), addr(5), addr(6), 7, 8, 2000, 900);
    assert_eq!(r.err(), Some(ScheduleError::AlreadyInitialized));
    assert_eq!(ScheduleError::AlreadyInitialized.message(), "schedule is already initialized");
    let s = slot.unwrap();
    assert_eq!(s.get_sender(), addr(1));
    assert_eq!(s.get_amount(), 100);
    assert_eq!(s.get_next_payment_time(), 1000);
    s.well_formed();
}

#[test]
fn refused_first_initialisation_leaves_the_slot_empty() {
    let mut slot: Option<RecurringPayment> = None;
    let r = RecurringPayment::initialize_once(&mut slot, addr(1), addr(2), addr(3), 0, 60, 1000, 900);
    assert_eq!(r.err(), Some(ScheduleError::AmountNotPositive));
    assert!(slot.is_none());
}
