//! Midl transactions and gas escalation.
//!
//! The first half is about Midl transactions (type 0x07): [`midl`] writes them in RLP,
//! unsigned and signed, [`midl_decoding`] and [`midl_signed`] read them back, and
//! [`midl_laws`] and [`midl_field_laws`] hold what the two have to do with each other.
//! [`signature`] tells the account that made a signature. [`rlp_format`] says what the format
//! is; [`codec`] is where the `rlp` crate is called.
//!
//! The second half, [`gas_escalator`], decides how the fees of transactions that are stuck
//! are raised. It talks to no node itself: a round asks for what it needs to know and goes on
//! when it is told.

pub mod codec;
pub mod decoding;
pub mod encoding;
pub mod gas_escalator;
pub mod midl;
pub mod midl_decoding;
pub mod midl_field_laws;
pub mod midl_laws;
pub mod midl_request;
pub mod midl_signed;
pub mod model_laws;
pub mod primitives;
pub mod rlp_format;
pub mod rlp_laws;
pub mod signature;
pub mod signature_laws;
pub mod transaction;
pub mod typed_transaction;
