//! What holds of the backend as a whole.

pub mod arguments;
pub mod closing;
pub mod commands;
pub mod decoding;
pub mod devices;
pub mod failures;
pub mod inventory;
pub mod lifecycle;
pub mod listing;
pub mod metadata;
pub mod nesting;
pub mod options;
pub mod output;
pub mod pools;
pub mod properties;
pub mod protocol;
pub mod refusals;
pub mod removal;
pub mod reported;
pub mod requests;
pub mod resizing;
pub mod selection;
pub mod sharing;
pub mod text;
pub mod told;
pub mod wording;
