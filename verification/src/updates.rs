//! What the relay does with an incoming message, and how it numbers the
//! messages it sends.

use vstd::prelude::*;
use crate::text::same_text;

verus! {

/// The chat whose posts are carried into the other languages.
pub const SOURCE_CHAT: i64 = 1391125365;

/// What is done with an incoming message.
#[derive(Debug, Copy, Clone, PartialEq, Eq, Structural)]
pub enum Route {
    /// Answer `pong`.
    Pong,
    /// Translate the caption and pass the media on.
    Media,
    /// Translate the text and pass it on.
    Text,
    /// Leave it alone.
    Ignore,
}

/// The route of a message. A message that the relay sent itself is left
/// alone. The word `test` is answered wherever it comes from; any other
/// message counts only where it comes from the source chat, as media if it
/// carries any and as text if not.
pub open spec fn route_of(outgoing: bool, chat_id: i64, text: Seq<char>, has_media: bool) -> Route {
    if outgoing {
        Route::Ignore
    } else if text == "test"@ {
        Route::Pong
    } else if chat_id != SOURCE_CHAT {
        Route::Ignore
    } else if has_media {
        Route::Media
    } else {
        Route::Text
    }
}

/// Decides what is done with a message.
pub fn route(outgoing: bool, chat_id: i64, text: &str, has_media: bool) -> (r: Route)
    ensures
        r == route_of(outgoing, chat_id, text@, has_media),
{
    if outgoing {
        Route::Ignore
    } else if same_text(text, "test") {
        Route::Pong
    } else if chat_id != SOURCE_CHAT {
        Route::Ignore
    } else if has_media {
        Route::Media
    } else {
        Route::Text
    }
}

/// The number for the next message: the number after the last one given
/// out, or `now` where none was given out yet, which `last == 0` says.
pub open spec fn id_after(last: i64, now: i64) -> i64 {
    if last == 0 {
        now
    } else {
        last
    }
}

/// The number with which the next message is sent, and the number to keep
/// for the message after it, which is one more and starts over from the
/// least number after the greatest.
pub fn next_random_id(last: i64, now: i64) -> (r: (i64, i64))
    ensures
        r.0 == id_after(last, now),
        r.0 < i64::MAX ==> r.1 == r.0 + 1,
        r.0 == i64::MAX ==> r.1 == i64::MIN,
{
    let id: i64 = if last == 0 {
        now
    } else {
        last
    };
    (id, id.wrapping_add(1))
}

} // verus!
