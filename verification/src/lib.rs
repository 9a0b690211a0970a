//! A small news-headlines library: building the request URL for the remote
//! news API, checking its response, mapping articles into display records,
//! the two queues that connect the fetch worker to the UI render loop, the
//! UI-side state transitions, and the persisted configuration codec.

pub mod channel;
pub mod config;
pub mod headlines;
pub mod newsapi;
