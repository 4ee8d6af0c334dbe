//! A recurring-billing ledger: subscription agreements between a payer and a
//! payee, with a status state machine, interval- and usage-based charging,
//! batch charging with per-item failure isolation, and overflow-checked
//! arithmetic on every balance mutation.

pub mod admin;
pub mod charge_core;
pub mod merchant;
pub mod queries;
pub mod safe_math;
pub mod state_machine;
pub mod subscription;
pub mod types;
pub mod vault;

pub use state_machine::can_transition;
pub use state_machine::get_allowed_transitions;
pub use state_machine::validate_status_transition;
pub use types::Address;
pub use types::BatchChargeResult;
pub use types::Error;
pub use types::NextChargeInfo;
pub use types::PlanTemplate;
pub use types::RecoveryEvent;
pub use types::RecoveryReason;
pub use types::Subscription;
pub use types::SubscriptionStatus;
pub use vault::SubscriptionVault;
