//! Value-transfer accounting with a rolling daily spending cap.
//!
//! A `PaymentAccount` tracks lifetime transfer statistics and a rolling
//! 24-hour spending window for one subject. The operations here validate
//! and account for payments; the actual movement of value is delegated to
//! a caller-supplied port, so that a payment commits its bookkeeping
//! exactly when the transfer itself has gone through.

pub mod account;
pub mod laws;
pub mod service;

pub use account::DEFAULT_DAILY_LIMIT;
pub use account::Identity;
pub use account::PaymentAccount;
pub use account::initialize;
pub use service::MEMO_MAX_LEN;
pub use service::PaymentError;
pub use service::PaymentEvent;
pub use service::PaymentFailure;
pub use service::PaymentHistory;
pub use service::WINDOW_SECONDS;
pub use service::send_payment;
pub use service::update_daily_limit;
