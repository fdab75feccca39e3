//! The tables that reservations are stored in.

use vstd::prelude::*;

verus! {

/// Creates the table of reservations. A reservation goes with its provider.
pub const CREATE_BUDGET_RESERVATIONS_TABLE: &'static str =
    "CREATE TABLE IF NOT EXISTS budget_reservations (
    request_id TEXT PRIMARY KEY,
    provider_id TEXT NOT NULL,
    app_type TEXT NOT NULL,
    credential_fingerprint TEXT NOT NULL,
    limit_type TEXT NOT NULL,
    reserved_tokens INTEGER NOT NULL DEFAULT 0,
    reserved_cost_usd TEXT NOT NULL DEFAULT '0',
    consumed_tokens INTEGER NOT NULL DEFAULT 0,
    consumed_cost_usd TEXT NOT NULL DEFAULT '0',
    status TEXT NOT NULL,
    created_at INTEGER NOT NULL,
    updated_at INTEGER NOT NULL,
    expires_at INTEGER NOT NULL,
    FOREIGN KEY (provider_id, app_type)
        REFERENCES providers(id, app_type) ON DELETE CASCADE
)";

/// Creates the index by which the active reservations of a key are found.
pub const CREATE_BUDGET_RESERVATIONS_INDEX: &'static str =
    "CREATE INDEX IF NOT EXISTS idx_budget_reservations_identity
ON budget_reservations (provider_id, app_type, credential_fingerprint, status, expires_at)";

} // verus!
