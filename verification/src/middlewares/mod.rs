mod cors;
mod logging;

pub use cors::{joined, CorsMiddleware, CorsPolicy};
pub use logging::LoggingMiddleware;
