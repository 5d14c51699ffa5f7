pub mod accounts;
pub mod api_error;
pub mod bet_error;
pub mod bets;
pub mod config;
pub mod constants;
pub mod consumer;
pub mod event_store;
pub mod events;
pub mod decimal;
pub mod fen;
pub mod ids;
pub mod keyspace;
pub mod lobby;
pub mod fen_laws;
pub mod friends;
pub mod patterns;
pub mod secrets;
pub mod text;
