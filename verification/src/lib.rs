//! Discovery of the host's network interfaces as normalized records:
//! a hardware (MAC) address value type with strict and lenient parsing,
//! a link-layer type taxonomy with per-platform numeric codes, and the
//! merge that folds the OS-supplied flat list of per-address records
//! into one `Interface` entity per name. The OS calls themselves stay
//! outside; the library works on the plain values they produce.

pub mod interface;
pub mod mac;
