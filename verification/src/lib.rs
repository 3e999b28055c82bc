//! Core logic of a native Windows GUI toolkit: the decisions and value
//! computations behind window-class registration, window procedures and GDI
//! font resources, kept apart from the `unsafe` OS calls so that they can be
//! verified. The platform glue that performs the actual OS calls lives in a
//! separate, Windows-only crate layered on top of this one.

pub mod error;
pub mod font;
pub mod sys_class;
pub mod wide_string;
