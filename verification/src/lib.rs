//! A function-composition and dependency-injection toolkit.
//!
//! Plain functions returning `Result<T, FnError<E>>` are lifted into a
//! uniform callable representation ([`callable`]), composed pairwise
//! with short-circuiting on error and an explicit error-conversion rule
//! ([`error`]), partially applied from the right, and optionally
//! wrapped with a retry policy ([`retry`]).  The build-time layer that
//! turns declarations into composable steps is modelled explicitly:
//! [`sig`] analyses a declared signature into the metadata the
//! composition consults, [`strings`] derives the generated artifact
//! names, and [`plan`] runs the composition chain's state machine and
//! makes the per-step emission decisions.  [`laws`] states and proves
//! the composition laws once, for all callables.
//!
//! The remaining modules carry the sample application built on the
//! core: its error taxonomy ([`app_error`]), users and authentication
//! ([`user`], [`secutils`], [`request`]), and product listings
//! ([`product`]).

pub mod app_error;
pub mod callable;
pub mod error;
pub mod laws;
pub mod plan;
pub mod product;
pub mod request;
pub mod retry;
pub mod secutils;
pub mod sig;
pub mod strings;
pub mod user;
