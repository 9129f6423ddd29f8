//! Image loading for Bevy on the web: the browser's own image decoders do
//! the pixel work, and this crate holds the rules around them (which format a
//! request names, how a decode proceeds and when it has failed).
use crate::image::{default_entries, WebImageLoader};
use crate::mime_table::{table_entries, MimeTable};
use vstd::prelude::*;

pub mod decode;
pub mod image;
pub mod mime_table;

verus! {

/// The plugin's configuration: the table from file extension to MIME type
/// that its loader is built over.
pub struct WebCodecsPlugin {
    pub image_types: MimeTable,
}

impl Default for WebCodecsPlugin {
    fn default() -> (r: Self)
        ensures
            table_entries(r.image_types) == default_entries(),
    {
        WebCodecsPlugin { image_types: WebImageLoader::supported_mime_types() }
    }
}

} // verus!
