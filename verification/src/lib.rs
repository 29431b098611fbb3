//! Client-side session logic for injecting synthetic pointer input into a
//! running graphical session: capability discovery over the display server's
//! registry, a virtual-pointer device that emits motion, scroll and button
//! requests, a planner that unfolds one user command into an exact, ordered
//! request sequence, and a lifecycle driver that walks the fixed protocol
//! choreography.

pub mod command;
pub mod device;
pub mod registry;
pub mod session;
