use vstd::prelude::*;

use crate::address::Address;
use crate::digest::{sha256_digest, sha256_of};
use crate::payment_stream::StreamModel;
use crate::recurring_payment::ScheduleModel;
use crate::velox_registry::{ScheduleEntry, StreamEntry};

verus! {

/// Storage slots in which the factory contract keeps its configuration.
#[derive(Clone, Copy, PartialEq, Eq, Structural, Debug)]
pub enum FactoryKey {
    Registry,
    StreamWasm,
    ScheduleWasm,
    Admin,
    Deployments,
}

/// Why the factory refused to create an instance.
#[derive(Clone, Copy, PartialEq, Eq, Structural, Debug)]
pub enum FactoryError {
    RateNotPositive,
    FundedNotPositive,
    StartNotBeforeEnd,
    StartInPast,
    AmountNotPositive,
    IntervalNotPositive,
    FirstPaymentInPast,
    Overflow,
    AlreadyInitialized,
}

/// The text with which the factory reports a refusal.
pub open spec fn factory_error_text(e: FactoryError) -> Seq<char> {
    match e {
        FactoryError::RateNotPositive => "rate must be greater than zero"@,
        FactoryError::FundedNotPositive => "funded amount must be greater than zero"@,
        FactoryError::StartNotBeforeEnd => "start_time must be before end_time"@,
        FactoryError::StartInPast => "start_time must not be in the past"@,
        FactoryError::AmountNotPositive => "amount must be greater than zero"@,
        FactoryError::IntervalNotPositive => "interval must be greater than zero"@,
        FactoryError::FirstPaymentInPast => "first payment time must be in the future"@,
        FactoryError::Overflow => "arithmetic overflow"@,
        FactoryError::AlreadyInitialized => "factory is already initialized"@,
    }
}

impl FactoryError {
    /// The text with which the factory reports this refusal.
    pub fn message(&self) -> (m: &'static str)
        ensures
            m@ == factory_error_text(*self),
    {
        match self {
            FactoryError::RateNotPositive => "rate must be greater than zero",
            FactoryError::FundedNotPositive => "funded amount must be greater than zero",
            FactoryError::StartNotBeforeEnd => "start_time must be before end_time",
            FactoryError::StartInPast => "start_time must not be in the past",
            FactoryError::AmountNotPositive => "amount must be greater than zero",
            FactoryError::IntervalNotPositive => "interval must be greater than zero",
            FactoryError::FirstPaymentInPast => "first payment time must be in the future",
            FactoryError::Overflow => "arithmetic overflow",
            FactoryError::AlreadyInitialized => "factory is already initialized",
        }
    }
}

/// Where and how a new instance is deployed: `wasm_hash` at the address derived from
/// `salt`, to be registered in `registry` as registered at `registered_at`.
#[derive(Clone, Copy, Debug, PartialEq, Eq)]
pub struct Deployment {
    pub wasm_hash: [u8; 32],
    pub salt: [u8; 32],
    pub registry: Address,
    pub registered_at: u64,
}

/// The parameters a new stream instance is initialised with.
#[derive(Clone, Copy, Debug, PartialEq, Eq)]
pub struct StreamInit {
    pub sender: Address,
    pub recipient: Address,
    pub token: Address,
    pub rate_per_second: i128,
    pub start_time: u64,
    pub end_time: u64,
    pub total_funded: i128,
}

/// The parameters a new schedule instance is initialised with.
#[derive(Clone, Copy, Debug, PartialEq, Eq)]
pub struct ScheduleInit {
    pub sender: Address,
    pub recipient: Address,
    pub token: Address,
    pub amount: i128,
    pub interval: u64,
    pub first_payment_time: u64,
}

/// The three steps that launch a stream, in order: deploy as `deployment` says, call the
/// new instance's `initialize` with `init`, then register `registration(address)` in
/// `deployment.registry`.
#[derive(Clone, Copy, Debug, PartialEq, Eq)]
pub struct StreamLaunch {
    pub deployment: Deployment,
    pub init: StreamInit,
}

/// The three steps that launch a schedule, in order: deploy as `deployment` says, call
/// the new instance's `initialize` with `init`, then register `registration(address)` in
/// `deployment.registry`.
#[derive(Clone, Copy, Debug, PartialEq, Eq)]
pub struct ScheduleLaunch {
    pub deployment: Deployment,
    pub init: ScheduleInit,
}

impl StreamLaunch {
    /// The registry entry of the stream once deployed at `stream_id`.
    pub fn registration(&self, stream_id: Address) -> (e: StreamEntry)
        ensures
            e == (StreamEntry {
                stream_id,
                sender: self.init.sender,
                recipient: self.init.recipient,
                registered_at: self.deployment.registered_at,
            }),
    {
        StreamEntry {
            stream_id,
            sender: self.init.sender,
            recipient: self.init.recipient,
            registered_at: self.deployment.registered_at,
        }
    }
}

impl ScheduleLaunch {
    /// The registry entry of the schedule once deployed at `schedule_id`.
    pub fn registration(&self, schedule_id: Address) -> (e: ScheduleEntry)
        ensures
            e == (ScheduleEntry {
                schedule_id,
                sender: self.init.sender,
                recipient: self.init.recipient,
                registered_at: self.deployment.registered_at,
            }),
    {
        ScheduleEntry {
            schedule_id,
            sender: self.init.sender,
            recipient: self.init.recipient,
            registered_at: self.deployment.registered_at,
        }
    }
}

/// The 8 bytes of `t`, most significant first.
pub open spec fn be_bytes(t: u64) -> Seq<u8> {
    seq![
        (t >> 56u64) as u8,
        (t >> 48u64) as u8,
        (t >> 40u64) as u8,
        (t >> 32u64) as u8,
        (t >> 24u64) as u8,
        (t >> 16u64) as u8,
        (t >> 8u64) as u8,
        t as u8,
    ]
}

/// The salt preimage of the factory's `count`-th instance: the big-endian bytes of
/// `count`, the sender's strkey text, the recipient's strkey text and the big-endian
/// bytes of the time.
pub open spec fn salt_preimage(count: u64, sender: Address, recipient: Address, time: u64) -> Seq<
    u8,
> {
    be_bytes(count) + sender@ + recipient@ + be_bytes(time)
}

/// The abstract state of the factory: everything its contract stores.
pub struct FactoryModel {
    pub admin: Address,
    pub registry: Address,
    pub stream_wasm: [u8; 32],
    pub schedule_wasm: [u8; 32],
    pub deployments: u64,
}

impl FactoryModel {
    /// Who must authorise setting up the factory: its admin.
    pub open spec fn initialize_signer(admin: Address) -> Address {
        admin
    }

    /// Who must authorise creating a stream or a schedule: its sender.
    pub open spec fn create_signer(sender: Address) -> Address {
        sender
    }

    /// Who must authorise replacing the deployed code: only the admin.
    pub open spec fn set_wasm_signer(self) -> Address {
        self.admin
    }

    /// Why `create_stream` at time `now` refuses these parameters, if it does.
    pub open spec fn create_stream_error(
        self,
        rate_per_second: i128,
        start_time: u64,
        end_time: u64,
        total_funded: i128,
        now: u64,
    ) -> Option<FactoryError> {
        if rate_per_second <= 0 {
            Some(FactoryError::RateNotPositive)
        } else if total_funded <= 0 {
            Some(FactoryError::FundedNotPositive)
        } else if start_time >= end_time {
            Some(FactoryError::StartNotBeforeEnd)
        } else if start_time < now {
            Some(FactoryError::StartInPast)
        } else if self.deployments == u64::MAX {
            Some(FactoryError::Overflow)
        } else {
            None
        }
    }

    /// Why `create_schedule` at time `now` refuses these parameters, if it does.
    pub open spec fn create_schedule_error(
        self,
        amount: i128,
        interval: u64,
        first_payment_time: u64,
        now: u64,
    ) -> Option<FactoryError> {
        if amount <= 0 {
            Some(FactoryError::AmountNotPositive)
        } else if interval == 0 {
            Some(FactoryError::IntervalNotPositive)
        } else if first_payment_time < now {
            Some(FactoryError::FirstPaymentInPast)
        } else if self.deployments == u64::MAX {
            Some(FactoryError::Overflow)
        } else {
            None
        }
    }

    /// The factory after one more deployment.
    pub open spec fn after_deployment(self) -> FactoryModel {
        FactoryModel { deployments: (self.deployments + 1) as u64, ..self }
    }

    /// Whether `d` deploys `wasm_hash` as this factory's next instance, salted for
    /// `sender`, `recipient` and `time`, and registers it in the factory's registry as
    /// registered at `now`.
    pub open spec fn deploys(
        self,
        d: Deployment,
        wasm_hash: [u8; 32],
        sender: Address,
        recipient: Address,
        time: u64,
        now: u64,
    ) -> bool {
        &&& d.wasm_hash == wasm_hash
        &&& d.salt@ == sha256_of(salt_preimage(self.deployments, sender, recipient, time))
        &&& d.registry == self.registry
        &&& d.registered_at == now
    }
}

/// The factory that validates and deploys new stream and schedule instances, each at an
/// address of its own.
pub struct StreamFactory {
    admin: Address,
    registry: Address,
    stream_wasm: [u8; 32],
    schedule_wasm: [u8; 32],
    deployments: u64,
}

impl View for StreamFactory {
    type V = FactoryModel;

    closed spec fn view(&self) -> FactoryModel {
        FactoryModel {
            admin: self.admin,
            registry: self.registry,
            stream_wasm: self.stream_wasm,
            schedule_wasm: self.schedule_wasm,
            deployments: self.deployments,
        }
    }
}

/// Appends the big-endian bytes of `t`.
fn push_be_bytes(out: &mut Vec<u8>, t: u64)
    ensures
        final(out)@ == old(out)@ + be_bytes(t),
{
    out.push((t >> 56u64) as u8);
    out.push((t >> 48u64) as u8);
    out.push((t >> 40u64) as u8);
    out.push((t >> 32u64) as u8);
    out.push((t >> 24u64) as u8);
    out.push((t >> 16u64) as u8);
    out.push((t >> 8u64) as u8);
    out.push(t as u8);
    assert(out@ =~= old(out)@ + be_bytes(t));
}

/// Appends the strkey text of `a`.
fn push_strkey(out: &mut Vec<u8>, a: &Address)
    ensures
        final(out)@ == old(out)@ + a@,
{
    let ghost start = out@;
    let mut i: usize = 0;
    while i < 56
        invariant
            i <= 56,
            out@ == start + a@.take(i as int),
        decreases 56 - i,
    {
        out.push(a.strkey[i]);
        assert(a@.take(i + 1) =~= a@.take(i as int).push(a@[i as int]));
        i = i + 1;
    }
    assert(a@.take(56) =~= a@);
}

/// The salt of the factory's `count`-th instance: the SHA-256 digest of its preimage.
fn deployment_salt(
    env: &soroban_sdk::Env,
    count: u64,
    sender: &Address,
    recipient: &Address,
    time: u64,
) -> (salt: [u8; 32])
    ensures
        salt@ == sha256_of(salt_preimage(count, *sender, *recipient, time)),
{
    let mut preimage: Vec<u8> = Vec::new();
    push_be_bytes(&mut preimage, count);
    push_strkey(&mut preimage, sender);
    push_strkey(&mut preimage, recipient);
    push_be_bytes(&mut preimage, time);
    assert(preimage@ =~= salt_preimage(count, *sender, *recipient, time));
    sha256_digest(env, preimage.as_slice())
}

impl StreamFactory {
    /// Sets up the factory, authorised by `FactoryModel::initialize_signer(admin)`, with its
    /// admin, the registry, the code of the two kinds of instances it deploys, and nothing
    /// deployed yet.
    pub fn initialize(
        admin: Address,
        registry: Address,
        stream_wasm_hash: [u8; 32],
        schedule_wasm_hash: [u8; 32],
    ) -> (f: StreamFactory)
        ensures
            f@ == (FactoryModel {
                admin,
                registry,
                stream_wasm: stream_wasm_hash,
                schedule_wasm: schedule_wasm_hash,
                deployments: 0,
            }),
    {
        StreamFactory {
            admin,
            registry,
            stream_wasm: stream_wasm_hash,
            schedule_wasm: schedule_wasm_hash,
            deployments: 0,
        }
    }

    /// Sets up the factory held in `slot`, which must still be empty: a factory is
    /// initialised once, after which only its admin changes the deployed code.  On refusal
    /// `slot` is unchanged.
    pub fn initialize_once(
        slot: &mut Option<StreamFactory>,
        admin: Address,
        registry: Address,
        stream_wasm_hash: [u8; 32],
        schedule_wasm_hash: [u8; 32],
    ) -> (r: Result<(), FactoryError>)
        ensures
            match r {
                Ok(()) => {
                    &&& (*old(slot)) is None
                    &&& (*final(slot)) matches Some(f) && f@ == (FactoryModel {
                        admin,
                        registry,
                        stream_wasm: stream_wasm_hash,
                        schedule_wasm: schedule_wasm_hash,
                        deployments: 0,
                    })
                },
                Err(e) => {
                    &&& (*old(slot)) is Some
                    &&& e == FactoryError::AlreadyInitialized
                    &&& *final(slot) == *old(slot)
                },
            },
    {
        if slot.is_some() {
            return Err(FactoryError::AlreadyInitialized);
        }
        *slot = Some(StreamFactory::initialize(admin, registry, stream_wasm_hash, schedule_wasm_hash));
        Ok(())
    }

    /// Rebuilds a factory from its stored fields.
    pub fn restore(
        admin: Address,
        registry: Address,
        stream_wasm: [u8; 32],
        schedule_wasm: [u8; 32],
        deployments: u64,
    ) -> (f: StreamFactory)
        ensures
            f@ == (FactoryModel { admin, registry, stream_wasm, schedule_wasm, deployments }),
    {
        StreamFactory { admin, registry, stream_wasm, schedule_wasm, deployments }
    }

    /// Validates, at time `now`, the parameters of a new payment stream and says how to
    /// launch it: deploy the stream code at a fresh address salted by the deployment count,
    /// the sender, the recipient and the start time; initialise it with these parameters;
    /// register it in the factory's registry.  Authorised by
    /// `FactoryModel::create_signer(sender)`.  On refusal nothing changes.
    pub fn create_stream(
        &mut self,
        env: &soroban_sdk::Env,
        sender: Address,
        recipient: Address,
        token: Address,
        rate_per_second: i128,
        start_time: u64,
        end_time: u64,
        total_funded: i128,
        now: u64,
    ) -> (r: Result<StreamLaunch, FactoryError>)
        ensures
            match r {
                Ok(l) => {
                    &&& old(self)@.create_stream_error(
                        rate_per_second,
                        start_time,
                        end_time,
                        total_funded,
                        now,
                    ) is None
                    &&& old(self)@.deploys(
                        l.deployment,
                        old(self)@.stream_wasm,
                        sender,
                        recipient,
                        start_time,
                        now,
                    )
                    &&& l.init == (StreamInit {
                        sender,
                        recipient,
                        token,
                        rate_per_second,
                        start_time,
                        end_time,
                        total_funded,
                    })
                    &&& final(self)@ == old(self)@.after_deployment()
                },
                Err(e) => {
                    &&& old(self)@.create_stream_error(
                        rate_per_second,
                        start_time,
                        end_time,
                        total_funded,
                        now,
                    ) == Some(e)
                    &&& final(self)@ == old(self)@
                },
            },
    {
        if rate_per_second <= 0 {
            return Err(FactoryError::RateNotPositive);
        }
        if total_funded <= 0 {
            return Err(FactoryError::FundedNotPositive);
        }
        if start_time >= end_time {
            return Err(FactoryError::StartNotBeforeEnd);
        }
        if start_time < now {
            return Err(FactoryError::StartInPast);
        }
        if self.deployments == u64::MAX {
            return Err(FactoryError::Overflow);
        }
        let salt = deployment_salt(env, self.deployments, &sender, &recipient, start_time);
        self.deployments = self.deployments + 1;
        let deployment = Deployment {
            wasm_hash: self.stream_wasm,
            salt,
            registry: self.registry,
            registered_at: now,
        };
        let init = StreamInit {
            sender,
            recipient,
            token,
            rate_per_second,
            start_time,
            end_time,
            total_funded,
        };
        Ok(StreamLaunch { deployment, init })
    }

    /// Validates the parameters of a new recurring schedule and says how to launch it at
    /// time `now`: deploy the schedule code at a fresh address salted by the deployment
    /// count, the sender, the recipient and the first payment time; initialise it with
    /// these parameters; register it in the factory's registry.  Authorised by
    /// `FactoryModel::create_signer(sender)`.  On refusal nothing changes.
    pub fn create_schedule(
        &mut self,
        env: &soroban_sdk::Env,
        sender: Address,
        recipient: Address,
        token: Address,
        amount: i128,
        interval: u64,
        first_payment_time: u64,
        now: u64,
    ) -> (r: Result<ScheduleLaunch, FactoryError>)
        ensures
            match r {
                Ok(l) => {
                    &&& old(self)@.create_schedule_error(amount, interval, first_payment_time, now)
                        is None
                    &&& old(self)@.deploys(
                        l.deployment,
                        old(self)@.schedule_wasm,
                        sender,
                        recipient,
                        first_payment_time,
                        now,
                    )
                    &&& l.init == (ScheduleInit {
                        sender,
                        recipient,
                        token,
                        amount,
                        interval,
                        first_payment_time,
                    })
                    &&& final(self)@ == old(self)@.after_deployment()
                },
                Err(e) => {
                    &&& old(self)@.create_schedule_error(amount, interval, first_payment_time, now)
                        == Some(e)
                    &&& final(self)@ == old(self)@
                },
            },
    {
        if amount <= 0 {
            return Err(FactoryError::AmountNotPositive);
        }
        if interval == 0 {
            return Err(FactoryError::IntervalNotPositive);
        }
        if first_payment_time < now {
            return Err(FactoryError::FirstPaymentInPast);
        }
        if self.deployments == u64::MAX {
            return Err(FactoryError::Overflow);
        }
        let salt = deployment_salt(env, self.deployments, &sender, &recipient, first_payment_time);
        self.deployments = self.deployments + 1;
        let deployment = Deployment {
            wasm_hash: self.schedule_wasm,
            salt,
            registry: self.registry,
            registered_at: now,
        };
        let init = ScheduleInit { sender, recipient, token, amount, interval, first_payment_time };
        Ok(ScheduleLaunch { deployment, init })
    }

    /// The registry the factory reports to.
    pub fn get_registry(&self) -> (a: Address)
        ensures
            a == self@.registry,
    {
        self.registry
    }

    /// Who may change the deployed code.
    pub fn get_admin(&self) -> (a: Address)
        ensures
            a == self@.admin,
    {
        self.admin
    }

    /// The account whose authorisation `set_stream_wasm` and `set_schedule_wasm` need.
    pub fn set_wasm_signer(&self) -> (a: Address)
        ensures
            a == self@.set_wasm_signer(),
    {
        self.admin
    }

    /// The code deployed for new streams.
    pub fn get_stream_wasm(&self) -> (h: [u8; 32])
        ensures
            h == self@.stream_wasm,
    {
        self.stream_wasm
    }

    /// The code deployed for new schedules.
    pub fn get_schedule_wasm(&self) -> (h: [u8; 32])
        ensures
            h == self@.schedule_wasm,
    {
        self.schedule_wasm
    }

    /// How many instances the factory has deployed.
    pub fn get_deployments(&self) -> (n: u64)
        ensures
            n == self@.deployments,
    {
        self.deployments
    }

    /// The admin replaces the code deployed for new streams.
    pub fn set_stream_wasm(&mut self, new_hash: [u8; 32])
        ensures
            final(self)@ == (FactoryModel { stream_wasm: new_hash, ..old(self)@ }),
    {
        self.stream_wasm = new_hash;
    }

    /// The admin replaces the code deployed for new schedules.
    pub fn set_schedule_wasm(&mut self, new_hash: [u8; 32])
        ensures
            final(self)@ == (FactoryModel { schedule_wasm: new_hash, ..old(self)@ }),
    {
        self.schedule_wasm = new_hash;
    }
}

/// Different deployment counts give different salt preimages, whatever the senders,
/// recipients and times: since every deployment raises the count, no two instances of a
/// factory are salted from the same bytes.
pub proof fn lemma_salt_preimages_are_fresh(
    a: u64,
    b: u64,
    sender_a: Address,
    sender_b: Address,
    recipient_a: Address,
    recipient_b: Address,
    time_a: u64,
    time_b: u64,
)
    requires
        a != b,
    ensures
        salt_preimage(a, sender_a, recipient_a, time_a) != salt_preimage(
            b,
            sender_b,
            recipient_b,
            time_b,
        ),
{
    let pa = salt_preimage(a, sender_a, recipient_a, time_a);
    let pb = salt_preimage(b, sender_b, recipient_b, time_b);
    if pa == pb {
        assert(pa.take(8) =~= be_bytes(a));
        assert(pb.take(8) =~= be_bytes(b));
        let ba = be_bytes(a);
        let bb = be_bytes(b);
        assert(ba[0] == bb[0] && ba[1] == bb[1] && ba[2] == bb[2] && ba[3] == bb[3]);
        assert(ba[4] == bb[4] && ba[5] == bb[5] && ba[6] == bb[6] && ba[7] == bb[7]);
        assert(a == b) by (bit_vector)
            requires
                (a >> 56u64) as u8 == (b >> 56u64) as u8,
                (a >> 48u64) as u8 == (b >> 48u64) as u8,
                (a >> 40u64) as u8 == (b >> 40u64) as u8,
                (a >> 32u64) as u8 == (b >> 32u64) as u8,
                (a >> 24u64) as u8 == (b >> 24u64) as u8,
                (a >> 16u64) as u8 == (b >> 16u64) as u8,
                (a >> 8u64) as u8 == (b >> 8u64) as u8,
                a as u8 == b as u8,
        ;
    }
}

/// Two creations in a row never share a salt preimage: the second is salted from the
/// raised deployment count.
pub proof fn lemma_successive_deployments_are_fresh(
    f: FactoryModel,
    first: Deployment,
    second: Deployment,
    wasm_a: [u8; 32],
    wasm_b: [u8; 32],
    sender_a: Address,
    sender_b: Address,
    recipient_a: Address,
    recipient_b: Address,
    time_a: u64,
    time_b: u64,
    now_a: u64,
    now_b: u64,
)
    requires
        f.deployments < u64::MAX,
        f.deploys(first, wasm_a, sender_a, recipient_a, time_a, now_a),
        f.after_deployment().deploys(second, wasm_b, sender_b, recipient_b, time_b, now_b),
    ensures
        salt_preimage(f.deployments, sender_a, recipient_a, time_a) != salt_preimage(
            f.after_deployment().deployments,
            sender_b,
            recipient_b,
            time_b,
        ),
        f.after_deployment().registry == f.registry,
{
    lemma_salt_preimages_are_fresh(
        f.deployments,
        f.after_deployment().deployments,
        sender_a,
        sender_b,
        recipient_a,
        recipient_b,
        time_a,
        time_b,
    );
}

/// After the admin replaces the stream code, every stream the factory deploys runs the
/// new code, and the schedule code, the admin and the registry stay as they were.
pub proof fn lemma_replaced_stream_code_is_deployed(
    f: FactoryModel,
    new_hash: [u8; 32],
    d: Deployment,
    sender: Address,
    recipient: Address,
    start_time: u64,
    now: u64,
)
    requires
        (FactoryModel { stream_wasm: new_hash, ..f }).deploys(
            d,
            (FactoryModel { stream_wasm: new_hash, ..f }).stream_wasm,
            sender,
            recipient,
            start_time,
            now,
        ),
    ensures
        d.wasm_hash == new_hash,
        d.salt@ == sha256_of(salt_preimage(f.deployments, sender, recipient, start_time)),
        (FactoryModel { stream_wasm: new_hash, ..f }).schedule_wasm == f.schedule_wasm,
        (FactoryModel { stream_wasm: new_hash, ..f }).admin == f.admin,
        (FactoryModel { stream_wasm: new_hash, ..f }).registry == f.registry,
{
}

/// A stream launch that the factory plans can be carried through: the planned
/// initialisation is accepted by the stream.
pub proof fn lemma_stream_launch_initialises(f: FactoryModel, l: StreamLaunch, now: u64)
    requires
        f.create_stream_error(
            l.init.rate_per_second,
            l.init.start_time,
            l.init.end_time,
            l.init.total_funded,
            now,
        ) is None,
    ensures
        StreamModel::initialize_error(
            l.init.rate_per_second,
            l.init.start_time,
            l.init.end_time,
            l.init.total_funded,
            now,
        ) is None,
{
}

/// A schedule launch that the factory plans can be carried through: the planned
/// initialisation is accepted by the schedule.
pub proof fn lemma_schedule_launch_initialises(f: FactoryModel, l: ScheduleLaunch, now: u64)
    requires
        f.create_schedule_error(l.init.amount, l.init.interval, l.init.first_payment_time, now)
            is None,
    ensures
        ScheduleModel::initialize_error(
            l.init.amount,
            l.init.interval,
            l.init.first_payment_time,
            now,
        ) is None,
{
}

/// The factory creates a stream exactly when the stream itself accepts the parameters and
/// a deployment is still available: a positive rate and funding, a start before the end,
/// and a start no earlier than the ledger time, so a stream may start the moment it is
/// created.
pub proof fn lemma_factory_creates_every_stream_the_stream_accepts(
    f: FactoryModel,
    rate_per_second: i128,
    start_time: u64,
    end_time: u64,
    total_funded: i128,
    now: u64,
)
    ensures
        f.create_stream_error(rate_per_second, start_time, end_time, total_funded, now) is None
            <==> (StreamModel::initialize_error(
            rate_per_second,
            start_time,
            end_time,
            total_funded,
            now,
        ) is None && f.deployments < u64::MAX),
        StreamModel::initialize_error(rate_per_second, start_time, end_time, total_funded, now)
            is None <==> (rate_per_second > 0 && total_funded > 0 && start_time < end_time && now
            <= start_time),
        f.deployments < u64::MAX ==> {
            let g = f.after_deployment();
            &&& g.deployments == f.deployments + 1
            &&& g.admin == f.admin
            &&& g.registry == f.registry
            &&& g.stream_wasm == f.stream_wasm
            &&& g.schedule_wasm == f.schedule_wasm
        },
{
}

/// The factory creates a schedule exactly when the schedule itself accepts the
/// parameters and a deployment is still available: a positive amount and interval, and a
/// first payment no earlier than the ledger time.
pub proof fn lemma_factory_creates_every_schedule_the_schedule_accepts(
    f: FactoryModel,
    amount: i128,
    interval: u64,
    first_payment_time: u64,
    now: u64,
)
    ensures
        f.create_schedule_error(amount, interval, first_payment_time, now) is None <==> (
        ScheduleModel::initialize_error(amount, interval, first_payment_time, now) is None
            && f.deployments < u64::MAX),
        ScheduleModel::initialize_error(amount, interval, first_payment_time, now) is None <==> (
        amount > 0 && interval > 0 && now <= first_payment_time),
{
}

} // verus!
