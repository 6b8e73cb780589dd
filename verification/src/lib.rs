//! Board support for an interrupt-driven radio control layer.
//!
//! The crate models the control logic that binds a microcontroller's
//! peripherals to an external radio-protocol engine: a capability table of
//! hardware operations backed by singleton handle slots, the exclusive
//! ownership protocol for the shared packet buffer, the translation of
//! hardware interrupts into priority-ordered tasks, and the translation of
//! engine events into application actions.
//!
//! Hardware state (pin levels, the transport port, the random source) is
//! represented by plain values so that every rule of the control layer is
//! stated and proved; the thin layer that drives the real peripherals lives
//! outside this library and mirrors the state transitions proved here.

pub mod antenna;
pub mod buffer;
pub mod dispatch;
pub mod event;
pub mod longfi_bindings;

pub use antenna::AntennaMode;
pub use antenna::AntennaSwitches;
pub use buffer::SharedBuffer;
pub use dispatch::TaskQueue;
pub use dispatch::initialize_radio_irq;
pub use event::ClientEvent;
pub use event::Notification;
pub use event::handle_client_event;
pub use longfi_bindings::LongFiBindings;
