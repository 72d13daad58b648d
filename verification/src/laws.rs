//! Laws of what the library's functions come back with, over their arguments and results and
//! over several calls of them.

pub mod codesign;
pub mod key;
pub mod search;
pub mod signer;
pub mod token;
