//! Backend logic of a desktop text-to-speech front end: the fallback voice
//! table, the requests sent to the local synthesis server and the decisions
//! taken on its replies, and the plans for revealing files and picking an
//! output folder through the host's shell utilities.
pub mod api;
pub mod desktop;
pub mod synthesis;
pub mod text;
pub mod voices;
