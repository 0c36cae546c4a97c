//! A verified carbon-credit certificate registry.
//!
//! The library records offset certificates, converts each certificate's
//! tonnage into fungible credit tokens at a fixed ratio, enforces
//! certificate uniqueness and administrative authorization, and keeps
//! running totals of certificates issued, tokens minted and tokens burned.
//!
//! The fungible-token ledger itself (per-owner balances and the
//! mint/transfer/burn primitives) is an external collaborator: the
//! registry only decides *whether* a ledger call may happen and *what*
//! it must do, and records the outcome. Those decisions, the conversion
//! arithmetic, the uniqueness rule and the aggregate accounting are what
//! is verified here.

pub mod certificate;
pub mod errors;
pub mod identity;
pub mod lifecycle;
pub mod registry;
pub mod store;
pub mod submission;
pub mod trading;

pub use certificate::CarbonCertificate;
pub use certificate::CertificateModel;
pub use certificate::MAX_CERTIFICATE_NUMBER_LEN;
pub use certificate::MAX_TONS_AMOUNT;
pub use certificate::TOKENS_PER_TON;
pub use errors::CarbonCreditError;
pub use identity::Identity;
pub use lifecycle::deactivate_certificate;
pub use lifecycle::get_certificate_info;
pub use registry::ProgramState;
pub use registry::initialize;
pub use store::CertificateStore;
pub use submission::MintAuthorization;
pub use submission::commit_submission;
pub use submission::submit_certificate;
pub use trading::BurnOrder;
pub use trading::TransferOrder;
pub use trading::burn_tokens;
pub use trading::record_burn;
pub use trading::transfer_tokens;
