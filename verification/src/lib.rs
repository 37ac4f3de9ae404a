//! A message bridge between an external control loop and a presentation
//! layer: a typed command protocol with a binary wire codec, a bounded relay
//! channel carrying in-flight command text, and a periodic notifier that
//! reports elapsed runtime.

pub mod codec;
pub mod command;
pub mod notifier;
pub mod pipeline;
pub mod relay;
pub mod text;

pub use codec::decode;
pub use codec::encode;
pub use codec::encode_decode;
pub use codec::DecodeError;
pub use command::Command;
pub use command::Payload;
pub use notifier::notifier_message;
pub use notifier::Notifier;
pub use notifier::NOTIFIER_INTERVAL_SECS;
pub use pipeline::inbound_step;
pub use pipeline::on_command;
pub use pipeline::outbound_step;
pub use pipeline::InboundOutcome;
pub use pipeline::OutboundStep;
pub use relay::Relay;
pub use relay::RecvResult;
pub use relay::SendResult;
pub use relay::RELAY_CAPACITY;
pub use text::channel_closed_message;
pub use text::greet;
pub use text::outbound_log_line;
pub use text::u64_to_decimal;
