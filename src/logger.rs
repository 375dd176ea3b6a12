use vstd::prelude::*;

verus! {

/// Request log pattern that resembles nginx's default access log.
pub const LOG_PATTERN_ACTIX_NGINX_LIKE: &'static str = "%a \"%r\" %s %b \"%{Referer}i\" \"%{User-Agent}i\" %T";

/// Configuration of the request logging middleware.
#[derive(Debug, Clone, PartialEq, Eq)]
pub struct LoggingMiddlewareConfig {
    /// Pattern of each log line.
    pub pattern: String,
    /// Logging target.
    pub logging_target: String,
}

impl Default for LoggingMiddlewareConfig {
    fn default() -> (r: Self)
        ensures
            r.pattern@ == LOG_PATTERN_ACTIX_NGINX_LIKE@,
            r.logging_target@ == "requests"@,
    {
        LoggingMiddlewareConfig {
            pattern: String::from_str(LOG_PATTERN_ACTIX_NGINX_LIKE),
            logging_target: String::from_str("requests"),
        }
    }
}

} // verus!
