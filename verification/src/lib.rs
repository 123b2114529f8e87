//! Verified core of a Model Context Protocol server for Spotify: the data
//! model of the Web API's answers, the requests that each tool sends, the
//! texts that each tool answers with, and the token and callback rules.

pub mod authorization;
pub mod callback;
pub mod error;
pub mod json;
pub mod laws;
pub mod models;
pub mod render;
pub mod replies;
pub mod requests;
pub mod response;
pub mod text;
pub mod token;
pub mod tools;
