//! A trustless two-party asset-swap escrow.
//!
//! A maker deposits an asset into a custodial vault and names the asset and
//! amount a taker must provide; the taker atomically satisfies the offer to
//! unlock the deposit, or the maker unilaterally cancels and reclaims it.
//! A timed record additionally carries a deadline after which the offer can
//! no longer be taken.

mod derivation;
mod errors;
mod laws;
mod layout;
mod make;
mod refund;
mod state;
mod store;
mod take;
mod token;
mod update;

pub use derivation::DerivedAuthority;
pub use derivation::authority_matches;
pub use derivation::bytes_eq;
pub use derivation::derive_authority;
pub use derivation::pda_of;
pub use derivation::spec_auth_seeds;
pub use derivation::spec_escrow_seeds;
pub use derivation::spec_vault_seeds;
pub use errors::EscrowError;
pub use laws::lemma_authorization;
pub use laws::lemma_bound_enforcement;
pub use laws::lemma_expiry_monotonic;
pub use laws::lemma_settled_record_is_gone;
pub use laws::lemma_single_settlement;
pub use layout::PLAIN_RECORD_LEN;
pub use layout::TIMED_RECORD_LEN;
pub use layout::lemma_record_round_trip;
pub use layout::parse_record;
pub use layout::spec_parse_record;
pub use layout::spec_record_bytes;
pub use make::Make;
pub use make::init_result;
pub use make::make;
pub use make::make_result;
pub use make::made_deal;
pub use refund::Refund;
pub use refund::refund;
pub use refund::refund_result;
pub use state::Escrow;
pub use state::MAX_EXPIRY_WINDOW;
pub use state::absolute_expiry;
pub use state::expired_at;
pub use state::window_within_bound;
pub use store::Deal;
pub use store::EscrowStore;
pub use store::deal_is;
pub use store::deal_wf;
pub use store::key_index;
pub use store::lemma_key_index_unique;
pub use store::store_has;
pub use store::store_wf;
pub use take::Take;
pub use take::take;
pub use take::take_result;
pub use token::TokenAccount;
pub use token::transfer;
pub use update::Update;
pub use update::update;
pub use update::update_result;
