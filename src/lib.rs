//! A terminal reader's core for syndicated feeds: decoding and merging entries from
//! many sources, coalescing scroll input, and the layout and scroll state of the
//! entry table and of the detail view.
pub mod debounce;
pub mod decode;
pub mod entry;
pub mod feed_view;
pub mod identity;
pub mod input;
pub mod layout;
pub mod pacer;
pub mod progress;
pub mod sources;
pub mod store;
pub mod text;
pub mod timestamp;
pub mod viewer;
