use vstd::prelude::*;

use crate::address::Address;
use crate::transfer::{direct, Party, Transfer};

verus! {

/// Storage slots in which a recurring-payment contract keeps its state.
#[derive(Clone, Copy, PartialEq, Eq, Structural, Debug)]
pub enum ScheduleKey {
    Sender,
    Recipient,
    Token,
    Amount,
    Interval,
    NextPaymentTime,
    Status,
    Operator,
}

/// Lifecycle of a recurring-payment schedule.
#[derive(Clone, Copy, PartialEq, Eq, Structural, Debug)]
pub enum ScheduleStatus {
    Active,
    Cancelled,
    Completed,
}

/// Why a schedule operation was refused.
#[derive(Clone, Copy, PartialEq, Eq, Structural, Debug)]
pub enum ScheduleError {
    AmountNotPositive,
    IntervalNotPositive,
    FirstPaymentInPast,
    NotActive,
    NotDue,
    Overflow,
    AlreadyInitialized,
}

/// The text with which a contract reports a refused schedule operation.
pub open spec fn schedule_error_text(e: ScheduleError) -> Seq<char> {
    match e {
        ScheduleError::AmountNotPositive => "amount must be greater than zero"@,
        ScheduleError::IntervalNotPositive => "interval must be greater than zero"@,
        ScheduleError::FirstPaymentInPast => "first payment time must be in the future"@,
        ScheduleError::NotActive => "schedule is not active"@,
        ScheduleError::NotDue => "payment is not due yet"@,
        ScheduleError::Overflow => "arithmetic overflow"@,
        ScheduleError::AlreadyInitialized => "schedule is already initialized"@,
    }
}

impl ScheduleError {
    /// The text with which a contract reports this refusal.
    pub fn message(&self) -> (m: &'static str)
        ensures
            m@ == schedule_error_text(*self),
    {
        match self {
            ScheduleError::AmountNotPositive => "amount must be greater than zero",
            ScheduleError::IntervalNotPositive => "interval must be greater than zero",
            ScheduleError::FirstPaymentInPast => "first payment time must be in the future",
            ScheduleError::NotActive => "schedule is not active",
            ScheduleError::NotDue => "payment is not due yet",
            ScheduleError::Overflow => "arithmetic overflow",
            ScheduleError::AlreadyInitialized => "schedule is already initialized",
        }
    }
}

/// A snapshot of every field of a schedule.
#[derive(Clone, Copy, Debug)]
pub struct ScheduleInfo {
    pub sender: Address,
    pub recipient: Address,
    pub token: Address,
    pub amount: i128,
    pub interval: u64,
    pub next_payment_time: u64,
    pub status: ScheduleStatus,
}

/// The abstract state of a schedule: everything its contract stores.
pub struct ScheduleModel {
    pub sender: Address,
    pub recipient: Address,
    pub token: Address,
    pub amount: i128,
    pub interval: u64,
    pub next_payment_time: u64,
    pub status: ScheduleStatus,
    pub operator: Address,
}

impl ScheduleModel {
    /// Who must authorise setting up a schedule: its sender, who pays.
    pub open spec fn initialize_signer(sender: Address) -> Address {
        sender
    }

    /// Who must authorise a payment: the designated operator.
    pub open spec fn execute_signer(self) -> Address {
        self.operator
    }

    /// Who must authorise a cancellation: only the sender.
    pub open spec fn cancel_signer(self) -> Address {
        self.sender
    }

    /// Who must authorise designating a new operator: only the sender.
    pub open spec fn set_operator_signer(self) -> Address {
        self.sender
    }

    /// What every schedule satisfies: a positive amount and a positive interval.
    pub open spec fn wf(self) -> bool {
        &&& self.amount > 0
        &&& self.interval > 0
    }

    /// Why `initialize` refuses these parameters at time `now`, if it does.
    pub open spec fn initialize_error(
        amount: i128,
        interval: u64,
        first_payment_time: u64,
        now: u64,
    ) -> Option<ScheduleError> {
        if amount <= 0 {
            Some(ScheduleError::AmountNotPositive)
        } else if interval == 0 {
            Some(ScheduleError::IntervalNotPositive)
        } else if first_payment_time < now {
            Some(ScheduleError::FirstPaymentInPast)
        } else {
            None
        }
    }

    /// Why `execute_payment` at `now` is refused, if it is.
    pub open spec fn execute_error(self, now: u64) -> Option<ScheduleError> {
        if self.status != ScheduleStatus::Active {
            Some(ScheduleError::NotActive)
        } else if now < self.next_payment_time {
            Some(ScheduleError::NotDue)
        } else if self.next_payment_time + self.interval > u64::MAX {
            Some(ScheduleError::Overflow)
        } else {
            None
        }
    }

    /// The state after a successful payment: the next payment is one interval later.
    pub open spec fn after_execute(self) -> ScheduleModel {
        ScheduleModel {
            next_payment_time: (self.next_payment_time + self.interval) as u64,
            ..self
        }
    }

    /// The state after `execute_payment` at `now`, or `None` when it is refused.
    pub open spec fn execute_at(self, now: u64) -> Option<ScheduleModel> {
        if self.execute_error(now) is None {
            Some(self.after_execute())
        } else {
            None
        }
    }

    /// Why `cancel` is refused, if it is.
    pub open spec fn cancel_error(self) -> Option<ScheduleError> {
        if self.status != ScheduleStatus::Active {
            Some(ScheduleError::NotActive)
        } else {
            None
        }
    }

    /// The state after a successful `cancel`.
    pub open spec fn after_cancel(self) -> ScheduleModel {
        ScheduleModel { status: ScheduleStatus::Cancelled, ..self }
    }

    /// Why designating an operator is refused, if it is.
    pub open spec fn set_operator_error(self) -> Option<ScheduleError> {
        if self.status != ScheduleStatus::Active {
            Some(ScheduleError::NotActive)
        } else {
            None
        }
    }
}

/// The state after paying at each of `times` in turn, or `None` as soon as one payment
/// is refused.
pub open spec fn run_payments(s: ScheduleModel, times: Seq<u64>) -> Option<ScheduleModel>
    decreases times.len(),
{
    if times.len() == 0 {
        Some(s)
    } else {
        match run_payments(s, times.drop_last()) {
            Some(m) => m.execute_at(times.last()),
            None => None,
        }
    }
}

/// A fixed-interval recurring payment: a fixed amount moves from the sender to the
/// recipient each time a payment falls due.  Payments are triggered by a designated
/// operator, which is the sender until the sender designates another.
pub struct RecurringPayment {
    sender: Address,
    recipient: Address,
    token: Address,
    amount: i128,
    interval: u64,
    next_payment_time: u64,
    status: ScheduleStatus,
    operator: Address,
}

impl View for RecurringPayment {
    type V = ScheduleModel;

    closed spec fn view(&self) -> ScheduleModel {
        ScheduleModel {
            sender: self.sender,
            recipient: self.recipient,
            token: self.token,
            amount: self.amount,
            interval: self.interval,
            next_payment_time: self.next_payment_time,
            status: self.status,
            operator: self.operator,
        }
    }
}

impl RecurringPayment {
    #[verifier::type_invariant]
    spec fn type_inv(self) -> bool {
        self@.wf()
    }

    /// Sets up a schedule at time `now` whose first payment falls due at
    /// `first_payment_time`, authorised by `ScheduleModel::initialize_signer(sender)`.  On
    /// success the schedule is active and the sender is its operator.
    pub fn initialize(
        sender: Address,
        recipient: Address,
        token: Address,
        amount: i128,
        interval: u64,
        first_payment_time: u64,
        now: u64,
    ) -> (r: Result<RecurringPayment, ScheduleError>)
        ensures
            match r {
                Ok(s) => {
                    &&& ScheduleModel::initialize_error(amount, interval, first_payment_time, now)
                        is None
                    &&& s@ == (ScheduleModel {
                        sender,
                        recipient,
                        token,
                        amount,
                        interval,
                        next_payment_time: first_payment_time,
                        status: ScheduleStatus::Active,
                        operator: sender,
                    })
                    &&& s@.wf()
                },
                Err(e) => ScheduleModel::initialize_error(
                    amount,
                    interval,
                    first_payment_time,
                    now,
                ) == Some(e),
            },
    {
        if amount <= 0 {
            return Err(ScheduleError::AmountNotPositive);
        }
        if interval == 0 {
            return Err(ScheduleError::IntervalNotPositive);
        }
        if first_payment_time < now {
            return Err(ScheduleError::FirstPaymentInPast);
        }
        Ok(
            RecurringPayment {
                sender,
                recipient,
                token,
                amount,
                interval,
                next_payment_time: first_payment_time,
                status: ScheduleStatus::Active,
                operator: sender,
            },
        )
    }

    /// Sets up the schedule held in `slot`, which must still be empty: a schedule is
    /// initialised once.  Otherwise as `initialize`; on refusal `slot` is unchanged.
    pub fn initialize_once(
        slot: &mut Option<RecurringPayment>,
        sender: Address,
        recipient: Address,
        token: Address,
        amount: i128,
        interval: u64,
        first_payment_time: u64,
        now: u64,
    ) -> (r: Result<(), ScheduleError>)
        ensures
            match r {
                Ok(()) => {
                    &&& (*old(slot)) is None
                    &&& ScheduleModel::initialize_error(amount, interval, first_payment_time, now)
                        is None
                    &&& (*final(slot)) matches Some(s) && s@ == (ScheduleModel {
                        sender,
                        recipient,
                        token,
                        amount,
                        interval,
                        next_payment_time: first_payment_time,
                        status: ScheduleStatus::Active,
                        operator: sender,
                    })
                },
                Err(e) => {
                    &&& *final(slot) == *old(slot)
                    &&& (*old(slot)) is Some ==> e == ScheduleError::AlreadyInitialized
                    &&& (*old(slot)) is None ==> ScheduleModel::initialize_error(
                        amount,
                        interval,
                        first_payment_time,
                        now,
                    ) == Some(e)
                },
            },
    {
        if slot.is_some() {
            return Err(ScheduleError::AlreadyInitialized);
        }
        let s = RecurringPayment::initialize(
            sender,
            recipient,
            token,
            amount,
            interval,
            first_payment_time,
            now,
        )?;
        *slot = Some(s);
        Ok(())
    }

    /// Every schedule satisfies its invariant.
    pub fn well_formed(&self)
        ensures
            self@.wf(),
    {
        proof {
            use_type_invariant(self);
        }
    }

    /// Rebuilds a schedule from its stored fields; `None` when they break the schedule's
    /// invariant.
    pub fn restore(
        sender: Address,
        recipient: Address,
        token: Address,
        amount: i128,
        interval: u64,
        next_payment_time: u64,
        status: ScheduleStatus,
        operator: Address,
    ) -> (r: Option<RecurringPayment>)
        ensures
            ({
                let m = ScheduleModel {
                    sender,
                    recipient,
                    token,
                    amount,
                    interval,
                    next_payment_time,
                    status,
                    operator,
                };
                match r {
                    Some(s) => m.wf() && s@ == m,
                    None => !m.wf(),
                }
            }),
    {
        if amount <= 0 || interval == 0 {
            return None;
        }
        Some(
            RecurringPayment {
                sender,
                recipient,
                token,
                amount,
                interval,
                next_payment_time,
                status,
                operator,
            },
        )
    }

    /// Refuses unless the schedule is active.
    fn assert_schedule_is_active(&self) -> (r: Result<(), ScheduleError>)
        ensures
            r is Ok <==> self@.status == ScheduleStatus::Active,
            r is Err ==> r == Err::<(), ScheduleError>(ScheduleError::NotActive),
    {
        match self.status {
            ScheduleStatus::Active => Ok(()),
            _ => Err(ScheduleError::NotActive),
        }
    }

    /// Makes the payment that is due at `now`: the amount moves from the sender to the
    /// recipient, through the sender's allowance when an operator other than the sender
    /// triggers it, and the next payment falls due one interval later.  On refusal nothing
    /// changes.
    pub fn execute_payment(&mut self, now: u64) -> (r: Result<Transfer, ScheduleError>)
        ensures
            final(self)@.wf(),
            match r {
                Ok(t) => {
                    &&& old(self)@.execute_error(now) is None
                    &&& final(self)@ == old(self)@.after_execute()
                    &&& t == direct(
                        old(self)@.token,
                        old(self)@.sender,
                        old(self)@.recipient,
                        old(self)@.amount as int,
                        old(self)@.operator != old(self)@.sender,
                    )
                },
                Err(e) => {
                    &&& old(self)@.execute_error(now) == Some(e)
                    &&& final(self)@ == old(self)@
                },
            },
    {
        proof {
            use_type_invariant(&*self);
        }
        self.assert_schedule_is_active()?;
        if now < self.next_payment_time {
            return Err(ScheduleError::NotDue);
        }
        let next = match self.next_payment_time.checked_add(self.interval) {
            Some(n) => n,
            None => {
                return Err(ScheduleError::Overflow);
            },
        };
        let via_allowance = !self.operator.same_as(&self.sender);
        let t = Transfer {
            token: self.token,
            from: Party::Account(self.sender),
            to: Party::Account(self.recipient),
            amount: self.amount,
            via_allowance,
        };
        *self = RecurringPayment { next_payment_time: next, ..*self };
        Ok(t)
    }

    /// The sender cancels the schedule; no further payment is made.  On refusal nothing
    /// changes.
    pub fn cancel(&mut self) -> (r: Result<(), ScheduleError>)
        ensures
            final(self)@.wf(),
            match r {
                Ok(()) => {
                    &&& old(self)@.cancel_error() is None
                    &&& final(self)@ == old(self)@.after_cancel()
                },
                Err(e) => {
                    &&& old(self)@.cancel_error() == Some(e)
                    &&& final(self)@ == old(self)@
                },
            },
    {
        proof {
            use_type_invariant(&*self);
        }
        self.assert_schedule_is_active()?;
        *self = RecurringPayment { status: ScheduleStatus::Cancelled, ..*self };
        Ok(())
    }

    /// The sender designates `operator` to trigger payments from now on.  On refusal
    /// nothing changes.
    pub fn set_operator(&mut self, operator: Address) -> (r: Result<(), ScheduleError>)
        ensures
            final(self)@.wf(),
            match r {
                Ok(()) => {
                    &&& old(self)@.set_operator_error() is None
                    &&& final(self)@ == (ScheduleModel { operator, ..old(self)@ })
                },
                Err(e) => {
                    &&& old(self)@.set_operator_error() == Some(e)
                    &&& final(self)@ == old(self)@
                },
            },
    {
        proof {
            use_type_invariant(&*self);
        }
        self.assert_schedule_is_active()?;
        *self = RecurringPayment { operator, ..*self };
        Ok(())
    }

    /// The account whose authorisation `execute_payment` needs.
    pub fn execute_signer(&self) -> (a: Address)
        ensures
            a == self@.execute_signer(),
    {
        self.operator
    }

    /// The account whose authorisation `cancel` needs.
    pub fn cancel_signer(&self) -> (a: Address)
        ensures
            a == self@.cancel_signer(),
    {
        self.sender
    }

    /// The account whose authorisation `set_operator` needs.
    pub fn set_operator_signer(&self) -> (a: Address)
        ensures
            a == self@.set_operator_signer(),
    {
        self.sender
    }

    /// The account that triggers payments.
    pub fn get_operator(&self) -> (a: Address)
        ensures
            a == self@.operator,
    {
        self.operator
    }

    /// When the next payment falls due.
    pub fn get_next_payment_time(&self) -> (t: u64)
        ensures
            t == self@.next_payment_time,
    {
        self.next_payment_time
    }

    /// The schedule's lifecycle state.
    pub fn get_schedule_status(&self) -> (s: ScheduleStatus)
        ensures
            s == self@.status,
    {
        self.status
    }

    /// The amount paid at each interval.
    pub fn get_amount(&self) -> (a: i128)
        ensures
            a == self@.amount,
    {
        self.amount
    }

    /// Seconds between payments.
    pub fn get_interval(&self) -> (i: u64)
        ensures
            i == self@.interval,
    {
        self.interval
    }

    /// Who pays.
    pub fn get_sender(&self) -> (a: Address)
        ensures
            a == self@.sender,
    {
        self.sender
    }

    /// Who is paid.
    pub fn get_recipient(&self) -> (a: Address)
        ensures
            a == self@.recipient,
    {
        self.recipient
    }

    /// The token paid.
    pub fn get_token(&self) -> (a: Address)
        ensures
            a == self@.token,
    {
        self.token
    }

    /// Every field of the schedule in one value.
    pub fn get_schedule_info(&self) -> (i: ScheduleInfo)
        ensures
            i == (ScheduleInfo {
                sender: self@.sender,
                recipient: self@.recipient,
                token: self@.token,
                amount: self@.amount,
                interval: self@.interval,
                next_payment_time: self@.next_payment_time,
                status: self@.status,
            }),
    {
        ScheduleInfo {
            sender: self.sender,
            recipient: self.recipient,
            token: self.token,
            amount: self.amount,
            interval: self.interval,
            next_payment_time: self.next_payment_time,
            status: self.status,
        }
    }
}

/// Each payment moves the next due time exactly one interval later, so due times only
/// ever increase.
pub proof fn lemma_payment_advances_one_interval(s: ScheduleModel, now: u64)
    requires
        s.wf(),
        s.execute_error(now) is None,
    ensures
        s.after_execute().wf(),
        s.after_execute().next_payment_time == s.next_payment_time + s.interval,
        s.after_execute().next_payment_time > s.next_payment_time,
        now >= s.next_payment_time,
{
}

/// Payments never outpace the schedule: after a run of successful payments the next due
/// time has moved by one interval per payment, and the payment made `i`-th happened no
/// earlier than the first due time plus `i` intervals.
pub proof fn lemma_payments_follow_schedule(s: ScheduleModel, times: Seq<u64>)
    requires
        s.wf(),
        run_payments(s, times) is Some,
    ensures
        run_payments(s, times).unwrap().wf(),
        run_payments(s, times).unwrap().interval == s.interval,
        run_payments(s, times).unwrap().amount == s.amount,
        run_payments(s, times).unwrap().status == s.status,
        run_payments(s, times).unwrap().operator == s.operator,
        run_payments(s, times).unwrap().next_payment_time == s.next_payment_time + times.len()
            * s.interval,
        forall|i: int|
            0 <= i < times.len() ==> s.next_payment_time + i * s.interval <= #[trigger] times[i],
    decreases times.len(),
{
    if times.len() == 0 {
        assert(times.len() * s.interval == 0);
    } else {
        let prefix = times.drop_last();
        lemma_payments_follow_schedule(s, prefix);
        let m = run_payments(s, prefix).unwrap();
        assert(run_payments(s, times) == m.execute_at(times.last()));
        let n = times.len() - 1;
        assert(m.next_payment_time == s.next_payment_time + n * s.interval);
        assert(times.len() * s.interval == n * s.interval + s.interval) by (nonlinear_arith)
            requires
                n == times.len() - 1,
        ;
        assert forall|i: int| 0 <= i < times.len() implies s.next_payment_time + i * s.interval
            <= #[trigger] times[i] by {
            if i < n {
                assert(times[i] == prefix[i]);
            }
        }
    }
}

/// A cancelled schedule is frozen: every payment and every further cancel is refused.
pub proof fn lemma_cancelled_schedule_pays_nothing(s: ScheduleModel, times: Seq<u64>)
    requires
        s.status == ScheduleStatus::Cancelled,
        times.len() > 0,
    ensures
        run_payments(s, times) is None,
        s.cancel_error() == Some(ScheduleError::NotActive),
    decreases times.len(),
{
    if times.len() > 1 {
        lemma_cancelled_schedule_pays_nothing(s, times.drop_last());
    } else {
        assert(run_payments(s, times.drop_last()) == Some(s));
    }
}

/// Every payment that is due is made: when `k` payments have fallen due by `now`, paying
/// `k` times at `now` succeeds and moves the next due time `k` intervals later.
pub proof fn lemma_due_payments_all_succeed(s: ScheduleModel, now: u64, k: nat)
    requires
        s.wf(),
        s.status == ScheduleStatus::Active,
        k >= 1 ==> s.next_payment_time + (k - 1) * s.interval <= now,
        s.next_payment_time + k * s.interval <= u64::MAX,
    ensures
        run_payments(s, Seq::new(k, |i: int| now)) is Some,
        run_payments(s, Seq::new(k, |i: int| now)).unwrap().next_payment_time
            == s.next_payment_time + k * s.interval,
        run_payments(s, Seq::new(k, |i: int| now)).unwrap().status == s.status,
        run_payments(s, Seq::new(k, |i: int| now)).unwrap().interval == s.interval,
    decreases k,
{
    let times = Seq::new(k, |i: int| now);
    if k == 0 {
        assert(k * s.interval == 0) by (nonlinear_arith)
            requires
                k == 0,
        ;
        assert(times =~= Seq::<u64>::empty());
    } else {
        let j = (k - 1) as nat;
        assert(j * s.interval <= k * s.interval) by (nonlinear_arith)
            requires
                j == k - 1,
        ;
        assert(k * s.interval == j * s.interval + s.interval) by (nonlinear_arith)
            requires
                j == k - 1,
        ;
        if j >= 1 {
            assert((j - 1) * s.interval <= j * s.interval) by (nonlinear_arith)
                requires
                    j >= 1,
            ;
        }
        lemma_due_payments_all_succeed(s, now, j);
        assert(times.drop_last() =~= Seq::new(j, |i: int| now));
        let m = run_payments(s, times.drop_last()).unwrap();
        assert(run_payments(s, times) == m.execute_at(times.last()));
    }
}

/// The sender can always cancel an active schedule, whoever operates it, and only an
/// active one: cancelling stops the schedule, after which no payment is made, and changes
/// nothing else.
pub proof fn lemma_active_schedule_can_always_be_cancelled(
    s: ScheduleModel,
    operator: Address,
    now: u64,
)
    ensures
        s.cancel_error() is None <==> s.status == ScheduleStatus::Active,
        (ScheduleModel { operator, ..s }).cancel_error() == s.cancel_error(),
        s.cancel_signer() == s.sender,
        (ScheduleModel { operator, ..s }).cancel_signer() == s.sender,
        s.after_cancel().status == ScheduleStatus::Cancelled,
        s.after_cancel().execute_error(now) == Some(ScheduleError::NotActive),
        s.after_cancel().sender == s.sender && s.after_cancel().recipient == s.recipient
            && s.after_cancel().token == s.token && s.after_cancel().amount == s.amount
            && s.after_cancel().interval == s.interval && s.after_cancel().next_payment_time
            == s.next_payment_time && s.after_cancel().operator == s.operator,
{
}

/// An active schedule pays exactly when its next payment has fallen due (unless the
/// following due time would not fit in a timestamp); a payment moves the fixed amount
/// from the sender to the recipient, through the sender's allowance when someone else
/// operates the schedule.
pub proof fn lemma_payment_made_exactly_when_due(s: ScheduleModel, now: u64)
    requires
        s.status == ScheduleStatus::Active,
        s.next_payment_time + s.interval <= u64::MAX,
    ensures
        s.execute_error(now) is None <==> s.next_payment_time <= now,
        now < s.next_payment_time ==> s.execute_error(now) == Some(ScheduleError::NotDue),
        ({
            let t = direct(s.token, s.sender, s.recipient, s.amount as int, s.operator != s.sender);
            &&& t.from == Party::Account(s.sender)
            &&& t.to == Party::Account(s.recipient)
            &&& t.amount == s.amount
            &&& t.token == s.token
            &&& t.via_allowance == (s.operator != s.sender)
        }),
        ({
            let a = s.after_execute();
            &&& a.next_payment_time == s.next_payment_time + s.interval
            &&& a.sender == s.sender && a.recipient == s.recipient && a.token == s.token
            &&& a.amount == s.amount && a.interval == s.interval && a.status == s.status
            &&& a.operator == s.operator
        }),
{
}

} // verus!
