//! An on-demand image transformation pipeline.
//!
//! A request names a stored image, the size it is wanted in and, through its
//! `Accept` header, the formats the caller can take. The crate negotiates the
//! output format, resolves the requested size, decodes the stored bytes,
//! resizes the picture to exactly that size and encodes it again. Every
//! failure on the way becomes a problem document with its HTTP status.
//!
//! Three choices hold throughout:
//!
//! - Both `width` and `height` are required. A request that leaves one out,
//!   or gives one that is no positive integer, is refused; no side is ever
//!   defaulted.
//! - Resizing is exact fit: the output has the requested width and height,
//!   and the proportions of the input are not kept.
//! - Pixels are resampled with a linear (triangle) filter.
//!
//! Retrieving the stored bytes is left to the caller: [`request::prepare`]
//! says what to retrieve, [`request::answer`] takes what was found.
//!
//! What is computed by the `accept-header`, `image` and `serde_json` crates is
//! not proved here. Each call into them stands in a function of its own whose
//! contract is taken on trust, and whose documentation says what is claimed.

pub mod errors;
pub mod negotiation;
pub mod params;
pub mod pipeline;
pub mod request;
pub mod text;
