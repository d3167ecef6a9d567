//! Register ownership tokens, interrupt-driven completion and critical
//! sections for Cortex-M microcontrollers.
//!
//! - `token`, `registry`, `ledger`: exclusive and shared register tokens,
//!   the boot-time registry that hands them out, and the model of how they
//!   move through a program.
//! - `thread`: interrupt vector bindings.
//! - `dma`, `spi`: peripheral handles composed of tokens and a binding.
//! - `routine`: the routine future, resolved by interrupt firings.
//! - `processor`: the global interrupt mask and critical sections.
//! - `stream`: the decisions of the blocking stream adapter.
//! - `bus`: the register space the tokens act on.
pub mod bus;
pub mod dma;
pub mod ledger;
pub mod processor;
pub mod registry;
pub mod routine;
pub mod spi;
pub mod stream;
pub mod thread;
pub mod token;
