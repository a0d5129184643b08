//! A guest-side client for a cron scheduler service.
//!
//! A guest task has no persistent process: each activation is either the
//! deploy-time call, which registers a cron expression and a payload body
//! with the scheduler, or a later triggered call, which recovers the stored
//! payload and hands it to the application's handler. This crate holds the
//! decision logic of that two-phase protocol: resolving which phase an
//! activation is in, building the registration request, classifying the
//! scheduler's response, and validating the host's two-call buffer protocol.

mod bridge;
mod client;
mod event;
mod flow;
mod mode;

pub use bridge::HostFault;
pub use bridge::decode_identity;
pub use bridge::message_from_request;
pub use bridge::retrieve_fixed_buffer;
pub use client::RegistrationOutcome;
pub use client::RegistrationRequest;
pub use client::build_registration_url;
pub use client::classify_response;
pub use client::is_success_status;
pub use client::is_url_unreserved;
pub use client::lemma_success_message_contains_cron;
pub use client::listen_to_request;
pub use client::opt_str_view;
pub use client::registration_url;
pub use client::success_message;
pub use client::upper_hex_digit;
pub use client::url_encoded;
pub use client::url_encoded_byte;
pub use event::build_event_url;
pub use event::event_url;
pub use event::forward_event;
pub use event::json_string_at;
pub use event::request;
pub use flow::InvocationStep;
pub use flow::dispatch_payload;
pub use flow::schedule_cron_job;
pub use flow::schedule_handler;
pub use mode::ExecutionMode;
pub use mode::lemma_mode_total_exclusive;
pub use mode::mode_of;
pub use mode::resolve_mode;
