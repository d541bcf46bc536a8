//! Object/runtime core of an ActionScript-1/2-style virtual machine:
//! tagged runtime values with legacy coercion rules, a managed arena of
//! prototype-linked objects gated by a scoped mutation capability, the
//! property dispatch protocol (get/set/delete/enumerate with accessor
//! properties and attribute bits), and the blur-filter built-in as the
//! canonical consumer of that machinery.

pub mod blur_filter;
pub mod coerce;
pub mod dispatch;
pub mod gc;
pub mod heap;
pub mod laws;
pub mod object;
pub mod value;
