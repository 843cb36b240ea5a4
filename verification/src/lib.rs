//! Decision logic for a small desktop tray application.
//!
//! The application shell delegates windowing, tray rendering, notification
//! delivery and update polling to its host GUI runtime. Everything the shell
//! itself decides — how the installer download proceeds, what each tray event
//! does, what a notification contains, how an update check is reported — is
//! collected here as pure, verified functions. The runtime glue performs the
//! I/O and feeds the results back in as plain values.

pub mod installer;
pub mod notifications;
pub mod startup;
pub mod text;
pub mod tray;
pub mod updates;
