//! Verified core of the Velox payment protocol: continuous payment streams,
//! fixed-interval recurring payments, the factory that validates new instances,
//! and the registry that indexes them.
use vstd::prelude::*;

pub mod address;
pub mod digest;
pub mod payment_stream;
pub mod recurring_payment;
pub mod stream_factory;
pub mod transfer;
pub mod velox_registry;

pub use address::Address;
pub use payment_stream::{PaymentStream, StreamError, StreamKey, StreamModel, StreamStatus};
pub use recurring_payment::{RecurringPayment, ScheduleError, ScheduleInfo, ScheduleKey, ScheduleModel, ScheduleStatus};
pub use stream_factory::{
    Deployment, FactoryError, FactoryKey, FactoryModel, ScheduleInit, ScheduleLaunch, StreamFactory,
    StreamInit, StreamLaunch,
};
pub use transfer::{Party, Transfer};
pub use velox_registry::{RegistryKey, RegistryModel, ScheduleEntry, StreamEntry, VeloxRegistry};

verus! {

} // verus!
