//! A minimal finite-state machine: an entity moves between a small closed
//! set of named states in response to discrete events, carrying a payload
//! record that is transformed and handed forward at each transition.

pub mod fsm;
