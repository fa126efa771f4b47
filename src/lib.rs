//! Verified core of a safe wrapper over the native NTFS reading library.
//!
//! Every decision that the wrapper makes around a native call lives here:
//! how a status code is read, how a native error becomes a typed error, how
//! sized strings are fetched, how indexed collections are walked, how stream
//! positions are requested, and which object owns which native handle. The
//! native calls themselves are made by the thin binding layer around it.

pub mod error;
pub mod text;
pub mod status;
pub mod handles;
pub mod iteration;
pub mod stream;
pub mod sized;
pub mod ffi;
pub mod filetime;
