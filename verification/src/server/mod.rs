//! What stands between the transport and the handlers.

pub mod routing;
