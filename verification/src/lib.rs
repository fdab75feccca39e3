//! Spending limits for API keys: identity of a key, validation of a limit, the
//! decision to let a request through, and the ledger of pending reservations.

pub mod app_error;
pub mod credential;
pub mod credential_laws;
pub mod decimal;
pub mod decimal_laws;
pub mod forward;
pub mod forward_laws;
pub mod json;
pub mod ledger;
pub mod ledger_laws;
pub mod limit;
pub mod limit_laws;
pub mod limit_row;
pub mod proxy_error;
pub mod proxy_error_laws;
pub mod rate;
pub mod rejection;
pub mod rejection_laws;
pub mod reserve;
pub mod reserve_laws;
pub mod save;
pub mod save_laws;
pub mod schema;
pub mod status;
pub mod status_laws;
pub mod text;
pub mod text_laws;
