//! The countable core of a virtual rose-engine lathe.
//!
//! A rose engine cuts decorative curves (guilloché) by sampling a cam profile
//! round a circle, pass after pass.  The geometry is arithmetic on real
//! numbers and is left to the caller, who hands it in as function values.
//! This crate decides everything that is a matter of counting and order:
//!
//! - [`run`]: which parameters a run accepts, which generator it uses, which
//!   curves it draws in which order, and how the traced curves make up the
//!   pattern;
//! - [`lathe`]: which parameters a single pass accepts and what it produces;
//! - [`trace`]: how a curve is walked, sample by sample, and how the two cut
//!   edges follow the tool path;
//! - [`segments`]: which samples of a pass are drawn and which are left as
//!   gaps, with [`binary64`] for the exact size of the drawn part;
//! - [`clusters`]: how the curves of a set are dealt to clusters;
//! - [`table`]: how the lookup table of a custom cam is filled and read;
//! - [`mesh`]: which facets the mesh of a groove is made of;
//! - [`error`]: the errors of all of them.

pub mod binary64;
pub mod clusters;
pub mod error;
pub mod lathe;
pub mod mesh;
pub mod run;
pub mod segments;
pub mod table;
pub mod trace;
