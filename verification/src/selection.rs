//! The texts by which menu entries name what to play: subtitles, audio tracks, video tracks.

use vstd::prelude::*;
use vstd::utf8::*;

use crate::media::{SubtitleTrack, SubtitleTrackView};
use crate::text;

verus! {

/// The subtitles that `target` stands for, or `None` where it stands for nothing: `none` for no
/// subtitles, four bytes and a number for a stream, `ext-` and a URI for a file.
pub open spec fn subtitle_selection(target: Seq<char>) -> Option<Option<SubtitleTrackView>> {
    if target == "none"@ {
        Some(None)
    } else {
        match text::split_text(target, 4) {
            Some((prefix, asset)) => if prefix == "ext-"@ {
                Some(Some(SubtitleTrackView::External(asset)))
            } else {
                match text::parsed_i32(asset) {
                    Some(index) => Some(Some(SubtitleTrackView::Inband(index))),
                    None => None,
                }
            },
            None => None,
        }
    }
}

/// The index of the track that `target` stands for: a number behind six bytes.
pub open spec fn track_selection(target: Seq<char>) -> Option<i32> {
    match text::split_text(target, 6) {
        Some((_, index)) => text::parsed_i32(index),
        None => None,
    }
}

/// The subtitles that `target` stands for, or `None` where it stands for nothing.
pub fn select_subtitle(target: &str) -> (r: Option<Option<SubtitleTrack>>)
    ensures
        r.deep_view() == subtitle_selection(target@),
{
    if text::same_text(target, "none") {
        return Some(None);
    }
    match text::split_at_byte(target, 4) {
        Some((prefix, asset)) => if text::same_text(prefix, "ext-") {
            Some(Some(SubtitleTrack::External(asset.to_owned())))
        } else {
            match text::parse_i32(asset) {
                Some(index) => Some(Some(SubtitleTrack::Inband(index))),
                None => None,
            }
        },
        None => None,
    }
}

/// The index of the track that `target` stands for, or `None` where it stands for nothing.
pub fn select_track(target: &str) -> (r: Option<i32>)
    ensures
        r == track_selection(target@),
{
    match text::split_at_byte(target, 6) {
        Some((_, index)) => text::parse_i32(index),
        None => None,
    }
}

/// A stream is selected again by `sub-` and its index.
pub proof fn law_subtitle_stream_round_trip(index: i32)
    ensures
        subtitle_selection("sub-"@ + text::int_text(index as int)) == Some(
            Some(SubtitleTrackView::Inband(index)),
        ),
{
    reveal_strlit("sub-");
    reveal_strlit("ext-");
    reveal_strlit("none");
    let target = "sub-"@ + text::int_text(index as int);
    text::lemma_split_ascii("sub-"@, text::int_text(index as int));
    text::lemma_decimal_round_trip(index);
    assert(target[0] == 's' && "none"@[0] == 'n');
    assert("sub-"@[0] == 's' && "ext-"@[0] == 'e');
}

/// A file is selected again by `ext-` and its URI, whatever the URI is.
pub proof fn law_subtitle_file_round_trip(uri: Seq<char>)
    ensures
        subtitle_selection("ext-"@ + uri) == Some(Some(SubtitleTrackView::External(uri))),
{
    reveal_strlit("ext-");
    reveal_strlit("none");
    text::lemma_split_ascii("ext-"@, uri);
    assert(("ext-"@ + uri)[0] == 'e' && "none"@[0] == 'n');
}

/// An audio track is selected again by `audio-` and its index, a video track by `video-` and its
/// index; the index -1 is no exception.
pub proof fn law_track_round_trip(index: i32)
    ensures
        track_selection("audio-"@ + text::int_text(index as int)) == Some(index),
        track_selection("video-"@ + text::int_text(index as int)) == Some(index),
{
    reveal_strlit("audio-");
    reveal_strlit("video-");
    text::lemma_split_ascii("audio-"@, text::int_text(index as int));
    text::lemma_split_ascii("video-"@, text::int_text(index as int));
    text::lemma_decimal_round_trip(index);
}

/// Behind four bytes stands the URI of a file where the four bytes are `ext-`, and the number of a
/// stream where they are anything else. Only `none` as a whole means no subtitles.
pub proof fn law_subtitle_texts(prefix: Seq<char>, asset: Seq<char>)
    requires
        encode_utf8(prefix).len() == 4,
        prefix + asset != "none"@,
    ensures
        prefix == "ext-"@ ==> subtitle_selection(prefix + asset) == Some(
            Some(SubtitleTrackView::External(asset)),
        ),
        prefix != "ext-"@ ==> match text::parsed_i32(asset) {
            Some(index) => subtitle_selection(prefix + asset) == Some(
                Some(SubtitleTrackView::Inband(index)),
            ),
            None => subtitle_selection(prefix + asset) is None,
        },
{
    text::law_split_of_joined(prefix, asset);
}

/// A text that stands for subtitles is `none`, which turns them off, or has a first part of four
/// bytes. No other text turns them off.
pub proof fn law_subtitle_texts_only(target: Seq<char>)
    ensures
        subtitle_selection(target) == Some(None::<SubtitleTrackView>) <==> target == "none"@,
        subtitle_selection(target) is Some ==> target == "none"@ || exists|
            prefix: Seq<char>,
            asset: Seq<char>,
        | #[trigger] (prefix + asset) == target && encode_utf8(prefix).len() == 4,
{
    if target != "none"@ && subtitle_selection(target) is Some {
        text::law_split_parts_join(target, 4);
        let (prefix, asset) = text::split_text(target, 4)->0;
        assert(prefix + asset == target);
    }
}

/// Behind six bytes, whatever they are, stands the number of a track.
pub proof fn law_track_texts(prefix: Seq<char>, index: Seq<char>)
    requires
        encode_utf8(prefix).len() == 6,
    ensures
        track_selection(prefix + index) == text::parsed_i32(index),
{
    text::law_split_of_joined(prefix, index);
}

/// A text that stands for a track has a first part of six bytes.
pub proof fn law_track_texts_only(target: Seq<char>)
    requires
        track_selection(target) is Some,
    ensures
        exists|prefix: Seq<char>, index: Seq<char>| #[trigger]
            (prefix + index) == target && encode_utf8(prefix).len() == 6,
{
    text::law_split_parts_join(target, 6);
    let (prefix, index) = text::split_text(target, 6)->0;
    assert(prefix + index == target);
}

} // verus!
