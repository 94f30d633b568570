use vstd::prelude::*;

use crate::address::Address;
use crate::transfer::{deposit, payout, Party, Transfer};

verus! {

/// Storage slots in which a stream contract keeps its state.
#[derive(Clone, Copy, PartialEq, Eq, Structural, Debug)]
pub enum StreamKey {
    Sender,
    Recipient,
    Token,
    RatePerSecond,
    StartTime,
    EndTime,
    TotalFunded,
    TotalWithdrawn,
    Status,
}

/// Lifecycle of a payment stream.
#[derive(Clone, Copy, PartialEq, Eq, Structural, Debug)]
pub enum StreamStatus {
    Active,
    Cancelled,
    Completed,
}

/// Why a stream operation was refused.
#[derive(Clone, Copy, PartialEq, Eq, Structural, Debug)]
pub enum StreamError {
    StartNotBeforeEnd,
    RateNotPositive,
    FundedNotPositive,
    StartInPast,
    NotActive,
    NothingToWithdraw,
    TopUpNotPositive,
    Overflow,
    AlreadyInitialized,
}

/// The text with which a contract reports a refused stream operation.
pub open spec fn stream_error_text(e: StreamError) -> Seq<char> {
    match e {
        StreamError::StartNotBeforeEnd => "start_time must be before end_time"@,
        StreamError::RateNotPositive => "rate must be greater than zero"@,
        StreamError::FundedNotPositive => "funded amount must be greater than zero"@,
        StreamError::StartInPast => "start_time must not be in the past"@,
        StreamError::NotActive => "stream is not active"@,
        StreamError::NothingToWithdraw => "nothing to withdraw"@,
        StreamError::TopUpNotPositive => "top-up amount must be greater than zero"@,
        StreamError::Overflow => "arithmetic overflow"@,
        StreamError::AlreadyInitialized => "stream is already initialized"@,
    }
}

impl StreamError {
    /// The text with which a contract reports this refusal.
    pub fn message(&self) -> (m: &'static str)
        ensures
            m@ == stream_error_text(*self),
    {
        match self {
            StreamError::StartNotBeforeEnd => "start_time must be before end_time",
            StreamError::RateNotPositive => "rate must be greater than zero",
            StreamError::FundedNotPositive => "funded amount must be greater than zero",
            StreamError::StartInPast => "start_time must not be in the past",
            StreamError::NotActive => "stream is not active",
            StreamError::NothingToWithdraw => "nothing to withdraw",
            StreamError::TopUpNotPositive => "top-up amount must be greater than zero",
            StreamError::Overflow => "arithmetic overflow",
            StreamError::AlreadyInitialized => "stream is already initialized",
        }
    }
}

/// The abstract state of a stream: everything its contract stores.
pub struct StreamModel {
    pub sender: Address,
    pub recipient: Address,
    pub token: Address,
    pub rate_per_second: i128,
    pub start_time: u64,
    pub end_time: u64,
    pub total_funded: i128,
    pub total_withdrawn: i128,
    pub status: StreamStatus,
}

pub open spec fn min_int(a: int, b: int) -> int {
    if a <= b {
        a
    } else {
        b
    }
}

pub open spec fn max_int(a: int, b: int) -> int {
    if a >= b {
        a
    } else {
        b
    }
}

impl StreamModel {
    /// What every stream satisfies: a positive rate, a non-empty time window, a positive
    /// funding, withdrawals within the funding, and a completed stream fully paid out.
    pub open spec fn wf(self) -> bool {
        &&& self.rate_per_second > 0
        &&& self.start_time < self.end_time
        &&& self.total_funded > 0
        &&& 0 <= self.total_withdrawn <= self.total_funded
        &&& self.status == StreamStatus::Completed ==> self.total_withdrawn == self.total_funded
    }

    /// Seconds of streaming that have elapsed at `now`: `min(now, end) - start`, and none
    /// before the start.
    pub open spec fn elapsed_at(self, now: u64) -> int {
        if now <= self.start_time {
            0
        } else {
            min_int(now as int, self.end_time as int) - self.start_time
        }
    }

    /// Tokens the recipient has earned by `now`: `rate * elapsed`, capped at the funding.
    pub open spec fn earned_at(self, now: u64) -> int {
        min_int(self.rate_per_second * self.elapsed_at(now), self.total_funded as int)
    }

    /// Tokens the recipient may withdraw at `now`: earned but not yet withdrawn while the
    /// stream is active, and nothing once it is cancelled or completed.
    pub open spec fn claimable_at(self, now: u64) -> int {
        if self.status != StreamStatus::Active {
            0
        } else {
            max_int(self.earned_at(now) - self.total_withdrawn, 0)
        }
    }

    /// Who must authorise opening a stream: its sender, who funds it.
    pub open spec fn initialize_signer(sender: Address) -> Address {
        sender
    }

    /// Who must authorise a withdrawal: only the recipient.
    pub open spec fn withdraw_signer(self) -> Address {
        self.recipient
    }

    /// Who must authorise a cancellation: only the sender.
    pub open spec fn cancel_signer(self) -> Address {
        self.sender
    }

    /// Who must authorise a top-up: only the sender.
    pub open spec fn top_up_signer(self) -> Address {
        self.sender
    }

    /// Funded tokens that the recipient has not withdrawn.
    pub open spec fn outstanding(self) -> int {
        self.total_funded - self.total_withdrawn
    }

    /// Why `initialize` at time `now` refuses these parameters, if it does.
    pub open spec fn initialize_error(
        rate_per_second: i128,
        start_time: u64,
        end_time: u64,
        total_funded: i128,
        now: u64,
    ) -> Option<StreamError> {
        if start_time >= end_time {
            Some(StreamError::StartNotBeforeEnd)
        } else if rate_per_second <= 0 {
            Some(StreamError::RateNotPositive)
        } else if total_funded <= 0 {
            Some(StreamError::FundedNotPositive)
        } else if start_time < now {
            Some(StreamError::StartInPast)
        } else {
            None
        }
    }

    /// Why `withdraw` at `now` is refused, if it is.
    pub open spec fn withdraw_error(self, now: u64) -> Option<StreamError> {
        if self.status != StreamStatus::Active {
            Some(StreamError::NotActive)
        } else if self.claimable_at(now) <= 0 {
            Some(StreamError::NothingToWithdraw)
        } else {
            None
        }
    }

    /// The state after a successful `withdraw` at `now`: the claimable amount is added to
    /// the withdrawn total, and the stream completes once its end has passed and
    /// everything funded has been withdrawn.
    pub open spec fn after_withdraw(self, now: u64) -> StreamModel {
        let withdrawn = self.total_withdrawn + self.claimable_at(now);
        StreamModel {
            total_withdrawn: withdrawn as i128,
            status: if now >= self.end_time && withdrawn >= self.total_funded {
                StreamStatus::Completed
            } else {
                self.status
            },
            ..self
        }
    }

    /// Why `cancel` is refused, if it is.
    pub open spec fn cancel_error(self) -> Option<StreamError> {
        if self.status != StreamStatus::Active {
            Some(StreamError::NotActive)
        } else {
            None
        }
    }

    /// The state after a successful `cancel` at `now`: what the recipient earned counts as
    /// withdrawn, and the stream is cancelled.
    pub open spec fn after_cancel(self, now: u64) -> StreamModel {
        StreamModel {
            total_withdrawn: (self.total_withdrawn + self.claimable_at(now)) as i128,
            status: StreamStatus::Cancelled,
            ..self
        }
    }

    /// The payouts of a successful `cancel` at `now`: the recipient's claimable amount,
    /// then the rest of the escrow back to the sender, each only when positive.
    pub open spec fn cancel_transfers(self, now: u64) -> Seq<Transfer> {
        let to_recipient = self.claimable_at(now);
        let to_sender = self.outstanding() - to_recipient;
        (if to_recipient > 0 {
            seq![payout(self.token, self.recipient, to_recipient)]
        } else {
            Seq::<Transfer>::empty()
        }) + (if to_sender > 0 {
            seq![payout(self.token, self.sender, to_sender)]
        } else {
            Seq::<Transfer>::empty()
        })
    }

    /// Why `top_up` with `amount` is refused, if it is.
    pub open spec fn top_up_error(self, amount: i128) -> Option<StreamError> {
        if self.status != StreamStatus::Active {
            Some(StreamError::NotActive)
        } else if amount <= 0 {
            Some(StreamError::TopUpNotPositive)
        } else if self.total_funded + amount > i128::MAX || self.end_time + amount
            / self.rate_per_second > u64::MAX {
            Some(StreamError::Overflow)
        } else {
            None
        }
    }

    /// The state after a successful `top_up` of `amount`: the funding grows by `amount`
    /// and the end moves later by `amount / rate` whole seconds.
    pub open spec fn after_top_up(self, amount: i128) -> StreamModel {
        StreamModel {
            total_funded: (self.total_funded + amount) as i128,
            end_time: (self.end_time + amount / self.rate_per_second) as u64,
            ..self
        }
    }
}

/// A continuous payment stream: funds held in escrow and released to the recipient at a
/// fixed rate per second between a start and an end time.
pub struct PaymentStream {
    sender: Address,
    recipient: Address,
    token: Address,
    rate_per_second: i128,
    start_time: u64,
    end_time: u64,
    total_funded: i128,
    total_withdrawn: i128,
    status: StreamStatus,
}

impl View for PaymentStream {
    type V = StreamModel;

    closed spec fn view(&self) -> StreamModel {
        StreamModel {
            sender: self.sender,
            recipient: self.recipient,
            token: self.token,
            rate_per_second: self.rate_per_second,
            start_time: self.start_time,
            end_time: self.end_time,
            total_funded: self.total_funded,
            total_withdrawn: self.total_withdrawn,
            status: self.status,
        }
    }
}

impl PaymentStream {
    #[verifier::type_invariant]
    spec fn type_inv(self) -> bool {
        self@.wf()
    }

    /// Opens a stream at time `now`, authorised by `StreamModel::initialize_signer(sender)`.
    /// On success the stream is active with nothing withdrawn, and the whole funding is to
    /// be deposited by the sender into escrow.
    pub fn initialize(
        sender: Address,
        recipient: Address,
        token: Address,
        rate_per_second: i128,
        start_time: u64,
        end_time: u64,
        total_funded: i128,
        now: u64,
    ) -> (r: Result<(PaymentStream, Transfer), StreamError>)
        ensures
            match r {
                Ok((s, t)) => {
                    &&& StreamModel::initialize_error(
                        rate_per_second,
                        start_time,
                        end_time,
                        total_funded,
                        now,
                    ) is None
                    &&& s@ == (StreamModel {
                        sender,
                        recipient,
                        token,
                        rate_per_second,
                        start_time,
                        end_time,
                        total_funded,
                        total_withdrawn: 0,
                        status: StreamStatus::Active,
                    })
                    &&& s@.wf()
                    &&& t == deposit(token, sender, total_funded as int)
                },
                Err(e) => StreamModel::initialize_error(
                    rate_per_second,
                    start_time,
                    end_time,
                    total_funded,
                    now,
                ) == Some(e),
            },
    {
        if start_time >= end_time {
            return Err(StreamError::StartNotBeforeEnd);
        }
        if rate_per_second <= 0 {
            return Err(StreamError::RateNotPositive);
        }
        if total_funded <= 0 {
            return Err(StreamError::FundedNotPositive);
        }
        if start_time < now {
            return Err(StreamError::StartInPast);
        }
        let s = PaymentStream {
            sender,
            recipient,
            token,
            rate_per_second,
            start_time,
            end_time,
            total_funded,
            total_withdrawn: 0,
            status: StreamStatus::Active,
        };
        let t = Transfer {
            token,
            from: Party::Account(sender),
            to: Party::Contract,
            amount: total_funded,
            via_allowance: false,
        };
        Ok((s, t))
    }

    /// Opens the stream held in `slot`, which must still be empty: a stream is initialised
    /// once, so a live stream's escrow can never be taken over.  Otherwise as
    /// `initialize`; on refusal `slot` is unchanged.
    pub fn initialize_once(
        slot: &mut Option<PaymentStream>,
        sender: Address,
        recipient: Address,
        token: Address,
        rate_per_second: i128,
        start_time: u64,
        end_time: u64,
        total_funded: i128,
        now: u64,
    ) -> (r: Result<Transfer, StreamError>)
        ensures
            match r {
                Ok(t) => {
                    &&& (*old(slot)) is None
                    &&& StreamModel::initialize_error(
                        rate_per_second,
                        start_time,
                        end_time,
                        total_funded,
                        now,
                    ) is None
                    &&& (*final(slot)) matches Some(s) && s@ == (StreamModel {
                        sender,
                        recipient,
                        token,
                        rate_per_second,
                        start_time,
                        end_time,
                        total_funded,
                        total_withdrawn: 0,
                        status: StreamStatus::Active,
                    })
                    &&& t == deposit(token, sender, total_funded as int)
                },
                Err(e) => {
                    &&& *final(slot) == *old(slot)
                    &&& (*old(slot)) is Some ==> e == StreamError::AlreadyInitialized
                    &&& (*old(slot)) is None ==> StreamModel::initialize_error(
                        rate_per_second,
                        start_time,
                        end_time,
                        total_funded,
                        now,
                    ) == Some(e)
                },
            },
    {
        if slot.is_some() {
            return Err(StreamError::AlreadyInitialized);
        }
        let (s, t) = PaymentStream::initialize(
            sender,
            recipient,
            token,
            rate_per_second,
            start_time,
            end_time,
            total_funded,
            now,
        )?;
        *slot = Some(s);
        Ok(t)
    }

    /// Every stream satisfies its invariant.
    pub fn well_formed(&self)
        ensures
            self@.wf(),
    {
        proof {
            use_type_invariant(self);
        }
    }

    /// Rebuilds a stream from its stored fields; `None` when they break the stream's
    /// invariant.
    pub fn restore(
        sender: Address,
        recipient: Address,
        token: Address,
        rate_per_second: i128,
        start_time: u64,
        end_time: u64,
        total_funded: i128,
        total_withdrawn: i128,
        status: StreamStatus,
    ) -> (r: Option<PaymentStream>)
        ensures
            ({
                let m = StreamModel {
                    sender,
                    recipient,
                    token,
                    rate_per_second,
                    start_time,
                    end_time,
                    total_funded,
                    total_withdrawn,
                    status,
                };
                match r {
                    Some(s) => m.wf() && s@ == m,
                    None => !m.wf(),
                }
            }),
    {
        let completed_unpaid = match status {
            StreamStatus::Completed => total_withdrawn != total_funded,
            _ => false,
        };
        if rate_per_second <= 0 || start_time >= end_time || total_funded <= 0
            || total_withdrawn < 0 || total_withdrawn > total_funded || completed_unpaid {
            return None;
        }
        Some(
            PaymentStream {
                sender,
                recipient,
                token,
                rate_per_second,
                start_time,
                end_time,
                total_funded,
                total_withdrawn,
                status,
            },
        )
    }

    /// Tokens claimable at `now`: for an active stream `rate * elapsed` capped at the
    /// funding, less what was already withdrawn, and never negative; otherwise nothing.
    fn calculate_claimable_balance(&self, now: u64) -> (c: i128)
        ensures
            c == self@.claimable_at(now),
            0 <= c <= self@.outstanding(),
    {
        proof {
            use_type_invariant(self);
        }
        match self.status {
            StreamStatus::Active => {},
            _ => {
                return 0;
            },
        }
        if now <= self.start_time {
            return 0;
        }
        let effective_end = if now < self.end_time {
            now
        } else {
            self.end_time
        };
        let elapsed = (effective_end - self.start_time) as i128;
        let rate = self.rate_per_second;
        assert(rate * elapsed > 0) by (nonlinear_arith)
            requires
                rate > 0,
                elapsed > 0,
        ;
        let earned = match rate.checked_mul(elapsed) {
            Some(p) => if p < self.total_funded {
                p
            } else {
                self.total_funded
            },
            None => self.total_funded,
        };
        let c = earned - self.total_withdrawn;
        if c > 0 {
            c
        } else {
            0
        }
    }

    /// Tokens the recipient can withdraw at `now`; nothing unless the stream is active.
    pub fn get_claimable_balance(&self, now: u64) -> (c: i128)
        ensures
            c == self@.claimable_at(now),
            0 <= c <= self@.outstanding(),
    {
        self.calculate_claimable_balance(now)
    }

    /// Refuses unless the stream is active.
    fn assert_stream_is_active(&self) -> (r: Result<(), StreamError>)
        ensures
            r is Ok <==> self@.status == StreamStatus::Active,
            r is Err ==> r == Err::<(), StreamError>(StreamError::NotActive),
    {
        match self.status {
            StreamStatus::Active => Ok(()),
            _ => Err(StreamError::NotActive),
        }
    }

    /// The recipient withdraws everything claimable at `now`.  The stream completes when
    /// its end has passed and all its funding has been withdrawn.  On refusal nothing
    /// changes.
    pub fn withdraw(&mut self, now: u64) -> (r: Result<Transfer, StreamError>)
        ensures
            final(self)@.wf(),
            match r {
                Ok(t) => {
                    &&& old(self)@.withdraw_error(now) is None
                    &&& final(self)@ == old(self)@.after_withdraw(now)
                    &&& t == payout(old(self)@.token, old(self)@.recipient, old(self)@.claimable_at(now))
                },
                Err(e) => {
                    &&& old(self)@.withdraw_error(now) == Some(e)
                    &&& final(self)@ == old(self)@
                },
            },
    {
        proof {
            use_type_invariant(&*self);
        }
        self.assert_stream_is_active()?;
        let claimable = self.calculate_claimable_balance(now);
        if claimable <= 0 {
            return Err(StreamError::NothingToWithdraw);
        }
        let withdrawn = self.total_withdrawn + claimable;
        let status = if now >= self.end_time && withdrawn >= self.total_funded {
            StreamStatus::Completed
        } else {
            self.status
        };
        let t = Transfer {
            token: self.token,
            from: Party::Contract,
            to: Party::Account(self.recipient),
            amount: claimable,
            via_allowance: false,
        };
        *self = PaymentStream { total_withdrawn: withdrawn, status, ..*self };
        Ok(t)
    }

    /// The sender cancels the stream at `now`: the recipient is paid what is claimable,
    /// the rest of the escrow returns to the sender, and the stream is cancelled.  On
    /// refusal nothing changes.
    pub fn cancel(&mut self, now: u64) -> (r: Result<Vec<Transfer>, StreamError>)
        ensures
            final(self)@.wf(),
            match r {
                Ok(ts) => {
                    &&& old(self)@.cancel_error() is None
                    &&& final(self)@ == old(self)@.after_cancel(now)
                    &&& ts@ == old(self)@.cancel_transfers(now)
                },
                Err(e) => {
                    &&& old(self)@.cancel_error() == Some(e)
                    &&& final(self)@ == old(self)@
                },
            },
    {
        proof {
            use_type_invariant(&*self);
        }
        self.assert_stream_is_active()?;
        let claimable = self.calculate_claimable_balance(now);
        let mut transfers: Vec<Transfer> = Vec::new();
        let mut withdrawn = self.total_withdrawn;
        if claimable > 0 {
            withdrawn = withdrawn + claimable;
            transfers.push(
                Transfer {
                    token: self.token,
                    from: Party::Contract,
                    to: Party::Account(self.recipient),
                    amount: claimable,
                    via_allowance: false,
                },
            );
        }
        let remaining = self.total_funded - withdrawn;
        if remaining > 0 {
            transfers.push(
                Transfer {
                    token: self.token,
                    from: Party::Contract,
                    to: Party::Account(self.sender),
                    amount: remaining,
                    via_allowance: false,
                },
            );
        }
        *self = PaymentStream { total_withdrawn: withdrawn, status: StreamStatus::Cancelled, ..*self };
        proof {
            let m = old(self)@;
            assert(transfers@ =~= m.cancel_transfers(now));
        }
        Ok(transfers)
    }

    /// The sender adds `additional_amount` to the escrow; the end of the stream moves later
    /// by `additional_amount / rate` whole seconds.  On refusal nothing changes.
    pub fn top_up(&mut self, additional_amount: i128) -> (r: Result<Transfer, StreamError>)
        ensures
            final(self)@.wf(),
            match r {
                Ok(t) => {
                    &&& old(self)@.top_up_error(additional_amount) is None
                    &&& final(self)@ == old(self)@.after_top_up(additional_amount)
                    &&& t == deposit(old(self)@.token, old(self)@.sender, additional_amount as int)
                },
                Err(e) => {
                    &&& old(self)@.top_up_error(additional_amount) == Some(e)
                    &&& final(self)@ == old(self)@
                },
            },
    {
        proof {
            use_type_invariant(&*self);
        }
        self.assert_stream_is_active()?;
        if additional_amount <= 0 {
            return Err(StreamError::TopUpNotPositive);
        }
        let total_funded = match self.total_funded.checked_add(additional_amount) {
            Some(f) => f,
            None => {
                return Err(StreamError::Overflow);
            },
        };
        let extra = additional_amount / self.rate_per_second;
        if extra > (u64::MAX - self.end_time) as i128 {
            return Err(StreamError::Overflow);
        }
        let end_time = self.end_time + extra as u64;
        let t = Transfer {
            token: self.token,
            from: Party::Account(self.sender),
            to: Party::Contract,
            amount: additional_amount,
            via_allowance: false,
        };
        *self = PaymentStream { total_funded, end_time, ..*self };
        Ok(t)
    }

    /// The account whose authorisation `withdraw` needs.
    pub fn withdraw_signer(&self) -> (a: Address)
        ensures
            a == self@.withdraw_signer(),
    {
        self.recipient
    }

    /// The account whose authorisation `cancel` needs.
    pub fn cancel_signer(&self) -> (a: Address)
        ensures
            a == self@.cancel_signer(),
    {
        self.sender
    }

    /// The account whose authorisation `top_up` needs.
    pub fn top_up_signer(&self) -> (a: Address)
        ensures
            a == self@.top_up_signer(),
    {
        self.sender
    }

    /// The stream's lifecycle state.
    pub fn get_stream_status(&self) -> (s: StreamStatus)
        ensures
            s == self@.status,
    {
        self.status
    }

    /// Who funds the stream.
    pub fn get_sender(&self) -> (a: Address)
        ensures
            a == self@.sender,
    {
        self.sender
    }

    /// Who receives the stream.
    pub fn get_recipient(&self) -> (a: Address)
        ensures
            a == self@.recipient,
    {
        self.recipient
    }

    /// The token being streamed.
    pub fn get_token(&self) -> (a: Address)
        ensures
            a == self@.token,
    {
        self.token
    }

    /// Tokens released per second.
    pub fn get_rate_per_second(&self) -> (r: i128)
        ensures
            r == self@.rate_per_second,
    {
        self.rate_per_second
    }

    /// When streaming starts.
    pub fn get_start_time(&self) -> (t: u64)
        ensures
            t == self@.start_time,
    {
        self.start_time
    }

    /// When streaming ends.
    pub fn get_end_time(&self) -> (t: u64)
        ensures
            t == self@.end_time,
    {
        self.end_time
    }

    /// Everything funded into the stream so far.
    pub fn get_total_funded(&self) -> (f: i128)
        ensures
            f == self@.total_funded,
    {
        self.total_funded
    }

    /// Everything withdrawn from the stream so far.
    pub fn get_total_withdrawn(&self) -> (w: i128)
        ensures
            w == self@.total_withdrawn,
    {
        self.total_withdrawn
    }
}

/// The total number of tokens a sequence of transfers moves.
pub open spec fn total_moved(ts: Seq<Transfer>) -> int
    decreases ts.len(),
{
    if ts.len() == 0 {
        0
    } else {
        total_moved(ts.drop_last()) + ts.last().amount
    }
}

/// What the recipient can claim never exceeds the funded tokens not yet withdrawn, and is never
/// negative: withdrawals never exceed the total funded amount.
pub proof fn lemma_claimable_within_outstanding(s: StreamModel, now: u64)
    requires
        s.wf(),
    ensures
        0 <= s.claimable_at(now) <= s.outstanding(),
        s.earned_at(now) <= s.total_funded,
{
    if now > s.start_time {
        let e = s.elapsed_at(now);
        assert(s.rate_per_second * e >= 0) by (nonlinear_arith)
            requires
                s.rate_per_second > 0,
                e >= 0,
        ;
    }
}

/// Earned and claimable tokens never go down as time moves forward, and stop changing
/// once the stream has ended.
pub proof fn lemma_claimable_grows_with_time(s: StreamModel, earlier: u64, later: u64)
    requires
        s.wf(),
        earlier <= later,
    ensures
        s.earned_at(earlier) <= s.earned_at(later),
        s.claimable_at(earlier) <= s.claimable_at(later),
        s.end_time <= earlier ==> s.claimable_at(earlier) == s.claimable_at(later),
{
    let e1 = s.elapsed_at(earlier);
    let e2 = s.elapsed_at(later);
    assert(e1 <= e2);
    assert(s.rate_per_second * e1 <= s.rate_per_second * e2) by (nonlinear_arith)
        requires
            s.rate_per_second > 0,
            e1 <= e2,
    ;
}

/// Before the start nothing is claimable; within the window, while the cap is not
/// reached, the recipient has earned exactly `rate * (now - start)`.
pub proof fn lemma_claimable_follows_rate(s: StreamModel, now: u64)
    requires
        s.wf(),
    ensures
        now <= s.start_time ==> s.claimable_at(now) == 0,
        s.start_time < now <= s.end_time && s.rate_per_second * (now - s.start_time)
            <= s.total_funded ==> s.earned_at(now) == s.rate_per_second * (now - s.start_time),
{
}

/// A successful withdrawal leaves nothing claimable at the same moment, pays out exactly
/// what leaves the escrow, and keeps the stream well formed.
pub proof fn lemma_withdraw_takes_everything_claimable(s: StreamModel, now: u64)
    requires
        s.wf(),
        s.withdraw_error(now) is None,
    ensures
        s.after_withdraw(now).wf(),
        s.after_withdraw(now).claimable_at(now) == 0,
        s.outstanding() - s.after_withdraw(now).outstanding() == s.claimable_at(now),
        s.claimable_at(now) > 0,
{
    lemma_claimable_within_outstanding(s, now);
}

/// A stream completes only through a withdrawal made at or after its end that brings the
/// withdrawn total up to the funding.
pub proof fn lemma_completion_needs_end_and_full_payout(s: StreamModel, now: u64)
    requires
        s.wf(),
        s.withdraw_error(now) is None,
        s.after_withdraw(now).status == StreamStatus::Completed,
    ensures
        now >= s.end_time,
        s.after_withdraw(now).total_withdrawn == s.total_funded,
{
    lemma_claimable_within_outstanding(s, now);
}

/// Cancelling releases every funded token not yet withdrawn: the recipient gets what was claimable and the
/// sender gets the rest.
pub proof fn lemma_cancel_releases_outstanding(s: StreamModel, now: u64)
    requires
        s.wf(),
        s.cancel_error() is None,
    ensures
        total_moved(s.cancel_transfers(now)) == s.outstanding(),
        s.after_cancel(now).wf(),
        s.after_cancel(now).total_withdrawn == s.total_withdrawn + s.claimable_at(now),
{
    lemma_claimable_within_outstanding(s, now);
    let c = s.claimable_at(now);
    let r = s.outstanding() - c;
    let ts = s.cancel_transfers(now);
    let a = if c > 0 {
        seq![payout(s.token, s.recipient, c)]
    } else {
        Seq::<Transfer>::empty()
    };
    let b = if r > 0 {
        seq![payout(s.token, s.sender, r)]
    } else {
        Seq::<Transfer>::empty()
    };
    assert(ts == a + b);
    reveal_with_fuel(total_moved, 3);
    if c > 0 && r > 0 {
        assert(ts.drop_last() =~= a);
        assert(a.drop_last() =~= Seq::<Transfer>::empty());
    } else if c > 0 {
        assert(ts =~= a);
        assert(a.drop_last() =~= Seq::<Transfer>::empty());
    } else if r > 0 {
        assert(ts =~= b);
        assert(b.drop_last() =~= Seq::<Transfer>::empty());
    } else {
        assert(ts =~= Seq::<Transfer>::empty());
    }
}

/// A topped-up stream stays well formed, has `amount` more outstanding, and never owes
/// the recipient less than before at any moment.
pub proof fn lemma_top_up_never_reduces_claimable(s: StreamModel, amount: i128, now: u64)
    requires
        s.wf(),
        s.top_up_error(amount) is None,
    ensures
        s.after_top_up(amount).wf(),
        s.after_top_up(amount).outstanding() == s.outstanding() + amount,
        s.after_top_up(amount).claimable_at(now) >= s.claimable_at(now),
{
    let t = s.after_top_up(amount);
    let q = amount / s.rate_per_second;
    assert(q >= 0) by (nonlinear_arith)
        requires
            amount > 0,
            s.rate_per_second > 0,
            q == amount / s.rate_per_second,
    ;
    let e1 = s.elapsed_at(now);
    let e2 = t.elapsed_at(now);
    assert(e1 <= e2);
    assert(s.rate_per_second * e1 <= s.rate_per_second * e2) by (nonlinear_arith)
        requires
            s.rate_per_second > 0,
            e1 <= e2,
    ;
}

/// A cancelled or completed stream is frozen: nothing is claimable, and withdrawing,
/// cancelling and topping up are all refused as not active.
pub proof fn lemma_settled_stream_is_frozen(s: StreamModel, now: u64, amount: i128)
    requires
        s.status != StreamStatus::Active,
    ensures
        s.withdraw_error(now) == Some(StreamError::NotActive),
        s.cancel_error() == Some(StreamError::NotActive),
        s.top_up_error(amount) == Some(StreamError::NotActive),
        s.claimable_at(now) == 0,
{
}

/// The tokens a sequence of transfers pays into `who`'s account.
pub open spec fn paid_to(ts: Seq<Transfer>, who: Address) -> int
    decreases ts.len(),
{
    if ts.len() == 0 {
        0
    } else {
        paid_to(ts.drop_last(), who) + if ts.last().to == Party::Account(who) {
            ts.last().amount as int
        } else {
            0
        }
    }
}

/// What the recipient has earned by `now` is the rate times the seconds streamed, capped
/// at the funding: nothing up to the start, `rate * (now - start)` within the window, and
/// `rate * (end - start)` from the end on.  While the recipient has withdrawn no more than
/// that, the claimable amount of an active stream is exactly the rest.
pub proof fn lemma_earned_is_rate_times_streamed_seconds(s: StreamModel, now: u64)
    requires
        s.wf(),
    ensures
        now <= s.start_time ==> s.earned_at(now) == 0,
        s.start_time < now <= s.end_time ==> s.earned_at(now) == min_int(
            s.rate_per_second * (now - s.start_time),
            s.total_funded as int,
        ),
        s.end_time <= now ==> s.earned_at(now) == min_int(
            s.rate_per_second * (s.end_time - s.start_time),
            s.total_funded as int,
        ),
        s.status == StreamStatus::Active && s.total_withdrawn <= s.earned_at(now)
            ==> s.claimable_at(now) == s.earned_at(now) - s.total_withdrawn,
{
}

/// The recipient of an active stream can withdraw whenever something is claimable: a
/// withdrawal is refused only when the stream is not active or nothing is claimable.
pub proof fn lemma_withdraw_refused_only_when_nothing_is_claimable(s: StreamModel, now: u64)
    requires
        s.wf(),
    ensures
        s.withdraw_error(now) is None <==> (s.status == StreamStatus::Active && s.claimable_at(
            now,
        ) > 0),
        s.status == StreamStatus::Active && s.claimable_at(now) <= 0 ==> s.withdraw_error(now)
            == Some(StreamError::NothingToWithdraw),
{
}

/// Successive withdrawals pay out exactly what was earned in between: after a withdrawal
/// at `t1` the withdrawn total is everything earned by `t1`, and a later withdrawal at
/// `t2` pays what was earned from `t1` to `t2`, refused only when nothing was.
pub proof fn lemma_successive_withdrawals_pay_what_was_earned(s: StreamModel, t1: u64, t2: u64)
    requires
        s.wf(),
        s.withdraw_error(t1) is None,
        s.total_withdrawn <= s.earned_at(t1),
        t1 <= t2,
    ensures
        s.claimable_at(t1) == s.earned_at(t1) - s.total_withdrawn,
        s.after_withdraw(t1).total_withdrawn == s.earned_at(t1),
        s.after_withdraw(t1).status == StreamStatus::Active ==> {
            &&& s.after_withdraw(t1).claimable_at(t2) == s.earned_at(t2) - s.earned_at(t1)
            &&& (s.after_withdraw(t1).withdraw_error(t2) is None <==> s.earned_at(t1)
                < s.earned_at(t2))
        },
{
    lemma_claimable_grows_with_time(s, t1, t2);
    lemma_claimable_within_outstanding(s, t1);
    let w = s.after_withdraw(t1);
    assert(w.earned_at(t1) == s.earned_at(t1));
    assert(w.earned_at(t2) == s.earned_at(t2));
}

/// A withdrawal completes the stream exactly when it is made at or after the end and the
/// recipient has then earned the whole funding; otherwise the stream stays active.
pub proof fn lemma_withdraw_completes_exactly_when_fully_earned(s: StreamModel, now: u64)
    requires
        s.wf(),
        s.withdraw_error(now) is None,
        s.total_withdrawn <= s.earned_at(now),
    ensures
        s.after_withdraw(now).status == StreamStatus::Completed <==> (s.end_time <= now
            && s.earned_at(now) == s.total_funded),
        s.after_withdraw(now).status != StreamStatus::Completed ==> s.after_withdraw(now).status
            == StreamStatus::Active,
        s.after_withdraw(now).total_withdrawn == s.earned_at(now),
        ({
            let w = s.after_withdraw(now);
            &&& w.sender == s.sender && w.recipient == s.recipient && w.token == s.token
            &&& w.rate_per_second == s.rate_per_second && w.total_funded == s.total_funded
            &&& w.start_time == s.start_time && w.end_time == s.end_time
        }),
        ({
            let t = payout(s.token, s.recipient, s.claimable_at(now));
            &&& t.from == Party::Contract && t.to == Party::Account(s.recipient)
            &&& t.token == s.token && t.amount == s.earned_at(now) - s.total_withdrawn
            &&& !t.via_allowance
        }),
{
    lemma_claimable_within_outstanding(s, now);
}

/// Cancelling pays the recipient exactly what is claimable and returns exactly the rest
/// of the escrow to the sender; every payout leaves the escrow in the stream's token and
/// is positive.
pub proof fn lemma_cancel_pays_recipient_claimable_and_sender_the_rest(s: StreamModel, now: u64)
    requires
        s.wf(),
        s.cancel_error() is None,
        s.sender != s.recipient,
    ensures
        paid_to(s.cancel_transfers(now), s.recipient) == s.claimable_at(now),
        paid_to(s.cancel_transfers(now), s.sender) == s.total_funded - s.total_withdrawn
            - s.claimable_at(now),
        s.total_withdrawn <= s.earned_at(now) ==> paid_to(s.cancel_transfers(now), s.recipient)
            == s.earned_at(now) - s.total_withdrawn,
        forall|i: int|
            0 <= i < s.cancel_transfers(now).len() ==> {
                &&& (#[trigger] s.cancel_transfers(now)[i]).from == Party::Contract
                &&& s.cancel_transfers(now)[i].token == s.token
                &&& s.cancel_transfers(now)[i].amount > 0
                &&& !s.cancel_transfers(now)[i].via_allowance
            },
        ({
            let c = s.after_cancel(now);
            &&& c.status == StreamStatus::Cancelled
            &&& c.total_withdrawn == s.total_withdrawn + s.claimable_at(now)
            &&& c.sender == s.sender && c.recipient == s.recipient && c.token == s.token
            &&& c.rate_per_second == s.rate_per_second && c.total_funded == s.total_funded
            &&& c.start_time == s.start_time && c.end_time == s.end_time
        }),
{
    lemma_claimable_within_outstanding(s, now);
    let c = s.claimable_at(now);
    let r = s.outstanding() - c;
    let ts = s.cancel_transfers(now);
    let pr = payout(s.token, s.recipient, c);
    let ps = payout(s.token, s.sender, r);
    assert(Party::Account(s.recipient) != Party::Account(s.sender));
    reveal_with_fuel(paid_to, 3);
    if c > 0 && r > 0 {
        assert(ts =~= seq![pr, ps]);
        assert(ts.drop_last() =~= seq![pr]);
        assert(ts.drop_last().drop_last() =~= Seq::<Transfer>::empty());
    } else if c > 0 {
        assert(ts =~= seq![pr]);
        assert(ts.drop_last() =~= Seq::<Transfer>::empty());
    } else if r > 0 {
        assert(ts =~= seq![ps]);
        assert(ts.drop_last() =~= Seq::<Transfer>::empty());
    } else {
        assert(ts =~= Seq::<Transfer>::empty());
    }
}

/// A withdrawal at `t1` followed by a cancellation at `t2` pays the recipient, at the
/// cancellation, exactly what was earned from `t1` to `t2`, and returns to the sender
/// everything funded that was not earned by `t2`.
pub proof fn lemma_cancel_after_withdraw_pays_only_what_was_earned_since(
    s: StreamModel,
    t1: u64,
    t2: u64,
)
    requires
        s.wf(),
        s.withdraw_error(t1) is None,
        s.total_withdrawn <= s.earned_at(t1),
        t1 <= t2,
        s.after_withdraw(t1).status == StreamStatus::Active,
        s.sender != s.recipient,
    ensures
        s.after_withdraw(t1).cancel_error() is None,
        paid_to(s.after_withdraw(t1).cancel_transfers(t2), s.recipient) == s.earned_at(t2)
            - s.earned_at(t1),
        paid_to(s.after_withdraw(t1).cancel_transfers(t2), s.sender) == s.total_funded
            - s.earned_at(t2),
{
    lemma_successive_withdrawals_pay_what_was_earned(s, t1, t2);
    lemma_withdraw_takes_everything_claimable(s, t1);
    lemma_cancel_pays_recipient_claimable_and_sender_the_rest(s.after_withdraw(t1), t2);
}

/// A top-up of `amount` is refused only for a stream that is not active, a non-positive
/// amount, or totals that would overflow; a successful one adds exactly `amount` to the
/// funding and moves the end exactly `amount / rate` whole seconds later, changing nothing
/// else.
pub proof fn lemma_top_up_extends_the_end_by_amount_over_rate(s: StreamModel, amount: i128)
    requires
        s.wf(),
    ensures
        s.top_up_error(amount) is None <==> (s.status == StreamStatus::Active && amount > 0
            && s.total_funded + amount <= i128::MAX && s.end_time + amount / s.rate_per_second
            <= u64::MAX),
        s.top_up_error(amount) is None ==> {
            let t = s.after_top_up(amount);
            &&& t.total_funded == s.total_funded + amount
            &&& t.end_time == s.end_time + amount / s.rate_per_second
            &&& t.start_time == s.start_time
            &&& t.rate_per_second == s.rate_per_second
            &&& t.total_withdrawn == s.total_withdrawn
            &&& t.status == s.status
            &&& t.sender == s.sender
            &&& t.recipient == s.recipient
            &&& t.token == s.token
        },
        s.top_up_error(amount) is None ==> ({
            let d = deposit(s.token, s.sender, amount as int);
            &&& d.from == Party::Account(s.sender) && d.to == Party::Contract
            &&& d.token == s.token && d.amount == amount && !d.via_allowance
        }),
{
}

} // verus!
