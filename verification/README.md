# ticket_bot

A Telegram and Discord bot that takes seat requests for a two-night show,
lets the organising team approve them with an `.approve` command, and serves a
page for the QR code each customer receives.

- `src/` is the verified library (Verus): what the bot decides and computes.
  - `text`: characters, trimming, splitting, replacement, joining, decimals.
  - `validation`: phone and seat numbers (checked with the `regex` crate).
  - `command`: the `.approve` command, with its round-trip law.
  - `telegram`: the customer conversation as a state machine, with its laws.
  - `discord`: the team's messages, approved orders, the steps of an
    approval, links and QR codes.
  - `order_id`: order ids and their hexadecimal form (MongoDB `ObjectId`).
  - `booking_page`: the page shown when a booking's QR code is scanned.
  - `model`: the stored records.
- `app/` is the program around it: the Telegram and Discord clients, the
  database and the web server, which perform what the library decides.
- `tests/` exercises the library on concrete values.

`Cargo.toml` names `takecell` though no code here uses it: `teloxide` depends
on it, and the line holds it at 0.1.1, since later releases ask for a newer
Rust compiler than the one this crate is built with.
