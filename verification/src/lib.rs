//! Core of an anonymous one-to-one gift-exchange coordinator.
//!
//! Participants register through a conversation that collects a display
//! name, a gift wish and a city group; a distribution step pairs the two
//! equal-size city groups so that everyone gives one gift and receives one;
//! afterwards free-text messages are relayed anonymously between a
//! participant and their assigned counterpart.

pub mod bot;
pub mod distribution;
pub mod relay;
pub mod states;
pub mod store;
pub mod text;
pub mod types;

pub use bot::Command;
pub use bot::CommandAction;
pub use bot::dispatch_command;
pub use bot::notify_assignments;
pub use bot::parse_command;
pub use bot::run_distribution;
pub use bot::run_notify;
pub use distribution::DistributeError;
pub use distribution::distribute;
pub use distribution::lemma_distribute_complete;
pub use distribution::lemma_distribute_mutual;
pub use distribution::spec_distribute;
pub use distribution::partition_by_city;
pub use relay::Direction;
pub use relay::Role;
pub use relay::relay;
pub use relay::render_thread;
pub use relay::tagged_text;
pub use states::Effect;
pub use states::Event;
pub use states::Incoming;
pub use states::Keyboard;
pub use states::Notice;
pub use states::Payload;
pub use states::Signal;
pub use states::Step;
pub use states::advance;
pub use states::handle_event;
pub use states::lemma_advance_deterministic;
pub use states::lemma_repeat_start_preserves_store;
pub use states::lemma_repeat_start_rejected;
pub use store::ParticipantStore;
pub use store::RelayStore;
pub use store::lemma_relay_single_thread;
pub use store::lemma_store_round_trip;
pub use text::replace_all;
pub use text::str_eq;
pub use types::Message;
pub use types::State;
pub use types::lemma_state_label_round_trip;
pub use types::parse_state;
pub use types::state_label;
pub use types::User;
pub use types::UserRecord;
