//! Utilities that bridge a structured logging backend with test execution,
//! split into two halves by use case: log your tests, or test your logs.
//!
//! # Testing your logs
//! [`log_testing`] captures log output so a test can make assertions about
//! it: a [`MockAppender`](log_testing::MockAppender) saves every formatted
//! line in call order, and the setup entry points install a fresh capture
//! configuration for exactly one test at a time — the backend is a single
//! process-wide resource, so capture tests are serialized, never interleaved.
//!
//! # Logging your tests
//! [`test_logging`] sets up debug logging for test runs: a
//! [`TestConsoleAppender`](test_logging::TestConsoleAppender) renders records
//! for the standard output stream a test harness captures, and
//! [`init_logging_once`](test_logging::init_logging_once) guarantees that
//! however many tests request setup, possibly in parallel, the backend is
//! configured exactly once.
//!
//! Both halves share the configuration model and builder policy in
//! [`config`], the record and encoder model in [`encode`], and the
//! in-memory text sink in [`string_buffer`].

pub mod config;
pub mod encode;
pub mod log_testing;
pub mod string_buffer;
pub mod test_logging;
