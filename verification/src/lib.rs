//! Seat-booking bot for a two-night show: the verified core.
//!
//! The bot talks to customers on Telegram, hands their requests to the
//! organising team on Discord, books seats when the team approves them, and
//! serves a page that shows a booking when its QR code is scanned.  Everything
//! here is the part of that work which decides and computes; the network, the
//! database and the two chat services are driven from outside.

pub mod text;
pub mod model;
pub mod booking_page;
pub mod validation;
pub mod command;
pub mod telegram;
pub mod order_id;
pub mod discord;
