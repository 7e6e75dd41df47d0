//! Decision logic for a radio-linked input/output messenger: coprocessor
//! bring-up ordering, network association, address selection, a debounced
//! edge-triggered sender and the handling of inbound commands.

pub mod command;
pub mod sender;
pub mod bringup;
pub mod association;
pub mod address;
