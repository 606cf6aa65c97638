//! What the screen shows, tab by tab, in plain values.

pub mod bars;
pub mod bus_tab;
pub mod chat_tab;
pub mod constellation_tab;
pub mod dreams_tab;
pub mod help;
pub mod layout;
pub mod memory_tab;
pub mod status_tab;
pub mod whole;
