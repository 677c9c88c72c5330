//! Left-padding of strings.
//!
//! [`leftpad`] pads a string on the left with a single fill character until
//! it is at least as long as a requested character count. The fill character
//! is chosen by a [`FillSpec`]: a character used verbatim, the first
//! character of a text (a space when the text is empty), or the first
//! character of a number's decimal rendering. All lengths are counted in
//! Unicode scalar values, never in bytes.

mod fill;
mod pad;

pub use fill::FillSpec;
pub use fill::resolve_fill;
pub use pad::leftpad;
