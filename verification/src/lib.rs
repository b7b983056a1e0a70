//! Native-menu and command-dispatch core of a desktop application shell.
//!
//! `menu` declares the application's menu bar as an immutable descriptor:
//! ordered groups of items and separators, each item carrying a stable
//! command identifier, a display label and an optional keyboard accelerator.
//! `dispatch` maps command identifiers to handler callables and routes an
//! invocation to the matching handler, reporting a distinct error when no
//! handler is registered.
//!
//! Installing the descriptor into the host windowing shell and receiving its
//! selection callbacks are the host's concern; this crate only defines the
//! descriptor and the dispatch contract.

pub mod dispatch;
pub mod menu;
