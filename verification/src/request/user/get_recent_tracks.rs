//! The streaming decision of the recent-tracks endpoint.
//!
//! The endpoint may report the track playing right now as an extra leading
//! item. The caller chooses whether to see it; either way at most one
//! now-playing track is passed through, and errors and ordinary tracks
//! always pass.

use vstd::prelude::*;

use crate::error::Error;
use crate::types::track::Track;

verus! {

/// Decides whether the recent-tracks stream passes `item` on. `should_emit`
/// says whether a now-playing track may still be emitted; it is cleared as
/// soon as one is seen, so at most one passes.
pub fn now_playing_filter(item: &Result<Track, Error>, should_emit: &mut bool) -> (r: bool)
    ensures
        ({
            let playing = item matches Ok(t) && t.now_playing;
            r == (!playing || *old(should_emit)) && *final(should_emit) == (*old(should_emit)
                && !playing)
        }),
{
    let playing = match item {
        Ok(t) => t.now_playing,
        Err(_) => false,
    };
    if playing {
        let cap = *should_emit;
        *should_emit = false;
        cap
    } else {
        true
    }
}

} // verus!
