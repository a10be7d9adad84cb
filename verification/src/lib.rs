//! The core of a client for the Alpha Vantage API of market data.
//!
//! For each query that it supports (the intraday, daily, weekly and monthly
//! time series of a symbol, and the exchange rate of two currencies) the
//! library makes the request and reads the response: it checks the status,
//! takes the JSON document apart, and turns the texts that it holds into
//! numbers and dates. Sending the request and receiving the response is the
//! caller's part: nothing here touches the network.
//!
//! Numbers are held as exact decimals and dates as plain calendar fields, so
//! that every function can say exactly what it returns.

pub mod api;
pub mod client;
pub mod datetime;
pub mod decimal;
pub mod deserialize;
pub mod error;
pub mod exchange_rate;
pub mod json;
pub mod text;
pub mod time_series;

pub use client::Client;
pub use error::Error;
