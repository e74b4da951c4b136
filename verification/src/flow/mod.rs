//! What a flow is: its definition as the flow engine stores it.

pub mod flowdef;
