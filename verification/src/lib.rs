//! An automated market maker with lockable swaps, and the contracts around it.
//!
//! The pool keeps two reserves of tokens and issues liquidity tokens for shares of them.
//! Swaps are priced by the constant-product rule, with a fee taken out of the input. A
//! swap can be locked first: it is priced at once, against the actual pools and against
//! the virtual pools that all outstanding locks would leave, and executed or cancelled
//! later.
//!
//! - [`math`], [`wide`], [`liquidity_util`], [`liquidity_math`]: the arithmetic, exact
//!   for all token amounts.
//! - [`token_balances`]: the ledger of what each holder owns within the pool.
//! - [`virtual_state`]: the locks and what they add to the pools.
//! - [`swap_model`], [`swap_contract`]: what the operations of the pool do, and the
//!   operations themselves.
//! - [`events`], [`interact_mpc20`], [`interact_swap`], [`interact_swap_lock_partial`],
//!   [`deploy`]: the calls that contracts ask the chain to make.
//! - [`permission`], [`address`], [`context`], [`error`], [`list_map`]: what the others
//!   build on.
//! - [`token`], [`voting`], [`ping`]: a token contract, a vote and a ping contract.
//!
//! Every operation takes the state it works on and gives the state afterwards, or the
//! reason for which it is refused: a refused operation has changed nothing.

pub mod address;
pub mod context;
pub mod deploy;
pub mod error;
pub mod events;
pub mod interact_mpc20;
pub mod interact_swap;
pub mod interact_swap_lock_partial;
pub mod liquidity_math;
pub mod liquidity_util;
pub mod list_map;
pub mod math;
pub mod permission;
pub mod ping;
pub mod swap_contract;
pub mod swap_model;
pub mod token;
pub mod token_balances;
pub mod virtual_state;
pub mod voting;
pub mod wide;
