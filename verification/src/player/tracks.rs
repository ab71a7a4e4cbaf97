//! The track list that the player process reports.
use crate::json::lemma_array_items;
use crate::json::Json;
use crate::json::Tree;
use crate::models::view_tracks;
use crate::models::PlayerStateSnapshot;
use crate::models::PlayerStateSnapshotView;
use crate::models::PlayerTrack;
use crate::models::PlayerTrackView;
use crate::text::same_text;
use vstd::prelude::*;

verus! {

/// The track that an entry of the list describes; nothing where the entry has no
/// kind or no number.
pub open spec fn described_track(entry: Tree) -> Option<PlayerTrackView> {
    match (entry.text_field("type"@), entry.at("id"@).as_int()) {
        (Some(kind), Some(id)) => Some(
            PlayerTrackView {
                id,
                kind,
                title: entry.text_field("title"@),
                lang: entry.text_field("lang"@),
                codec: entry.text_field("codec"@),
                external: entry.at("external"@).as_bool() == Some(true),
                selected: entry.at("selected"@).as_bool() == Some(true),
            },
        ),
        _ => None,
    }
}

/// The tracks of one kind that a list describes, in the order of the list.
pub open spec fn tracks_of_kind(entries: Seq<Tree>, kind: Seq<char>) -> Seq<PlayerTrackView>
    decreases entries.len(),
{
    if entries.len() == 0 {
        Seq::empty()
    } else {
        let front = tracks_of_kind(entries.drop_last(), kind);
        match described_track(entries.last()) {
            Some(track) => if track.kind == kind {
                front.push(track)
            } else {
                front
            },
            None => front,
        }
    }
}

/// The state after a track list was reported: the two lists of tracks are those
/// that it describes, and nothing else changes.
pub open spec fn with_track_list(
    snapshot: PlayerStateSnapshotView,
    list: Tree,
) -> PlayerStateSnapshotView {
    PlayerStateSnapshotView {
        subtitle_tracks: tracks_of_kind(list.items(), "sub"@),
        audio_tracks: tracks_of_kind(list.items(), "audio"@),
        ..snapshot
    }
}

/// The track that an entry describes.
fn read_track(entry: &Json) -> (r: Option<PlayerTrack>)
    ensures
        match r {
            Some(t) => described_track(entry@) == Some(t@),
            None => described_track(entry@) is None,
        },
{
    match (entry.text_at("type"), entry.int_at("id")) {
        (Some(kind), Some(id)) => Some(
            PlayerTrack {
                id,
                kind,
                title: entry.text_at("title"),
                lang: entry.text_at("lang"),
                codec: entry.text_at("codec"),
                external: entry.flag_at("external"),
                selected: entry.flag_at("selected"),
            },
        ),
        _ => None,
    }
}

/// Takes the lists of subtitle and audio tracks over from a reported track list.
/// What is no list empties both.
pub fn update_track_list(snapshot: &mut PlayerStateSnapshot, data: &Json)
    ensures
        final(snapshot)@ == with_track_list(old(snapshot)@, data@),
{
    let mut subtitles: Vec<PlayerTrack> = Vec::new();
    let mut audio: Vec<PlayerTrack> = Vec::new();
    assert(view_tracks(subtitles@) =~= Seq::empty());
    assert(view_tracks(audio@) =~= Seq::empty());
    proof {
        reveal_strlit("sub");
        reveal_strlit("audio");
    }
    assert("sub"@ != "audio"@) by {
        assert("sub"@.len() != "audio"@.len());
    }
    match data {
        Json::Array(entries) => {
            proof {
                lemma_array_items(*entries);
            }
            let ghost items = data@.items();
            let mut i: usize = 0;
            assert(items.take(0) =~= Seq::empty());
            while i < entries.len()
                invariant
                    i <= entries@.len(),
                    items.len() == entries@.len(),
                    forall|j: int| 0 <= j < items.len() ==> #[trigger] items[j] == entries@[j]@,
                    view_tracks(subtitles@) == tracks_of_kind(items.take(i as int), "sub"@),
                    view_tracks(audio@) == tracks_of_kind(items.take(i as int), "audio"@),
                    "sub"@ != "audio"@,
                decreases entries.len() - i,
            {
                let ghost subtitles_before = subtitles@;
                let ghost audio_before = audio@;
                assert(items.take(i + 1).drop_last() =~= items.take(i as int));
                assert(items.take(i + 1).last() == entries@[i as int]@);
                match read_track(&entries[i]) {
                    Some(track) => {
                        if same_text(track.kind.as_str(), "sub") {
                            subtitles.push(track);
                            assert(view_tracks(subtitles@) =~= view_tracks(subtitles_before).push(
                                track@,
                            ));
                        } else if same_text(track.kind.as_str(), "audio") {
                            audio.push(track);
                            assert(view_tracks(audio@) =~= view_tracks(audio_before).push(track@));
                        }
                    },
                    None => {},
                }
                i += 1;
            }
            assert(items.take(items.len() as int) =~= items);
        },
        _ => {},
    }
    snapshot.subtitle_tracks = subtitles;
    snapshot.audio_tracks = audio;
}

/// Every track of a list is of the kind that the list is for, and is described by
/// an entry of the reported list.
pub proof fn law_tracks_are_of_their_kind(entries: Seq<Tree>, kind: Seq<char>, i: int)
    requires
        0 <= i < tracks_of_kind(entries, kind).len(),
    ensures
        tracks_of_kind(entries, kind)[i].kind == kind,
        exists|k: int|
            0 <= k < entries.len() && #[trigger] described_track(entries[k]) == Some(
                tracks_of_kind(entries, kind)[i],
            ),
    decreases entries.len(),
{
    let front = tracks_of_kind(entries.drop_last(), kind);
    if i < front.len() {
        law_tracks_are_of_their_kind(entries.drop_last(), kind, i);
        let k = choose|k: int|
            0 <= k < entries.drop_last().len() && #[trigger] described_track(
                entries.drop_last()[k],
            ) == Some(front[i]);
        assert(described_track(entries[k]) == Some(front[i]));
    } else {
        assert(described_track(entries[entries.len() - 1]) == Some(
            tracks_of_kind(entries, kind)[i],
        ));
    }
}

/// Every entry that describes a track of a kind stands in the list of that kind.
pub proof fn law_tracks_are_all_listed(entries: Seq<Tree>, k: int)
    requires
        0 <= k < entries.len(),
        described_track(entries[k]) is Some,
    ensures
        tracks_of_kind(entries, described_track(entries[k])->Some_0.kind).contains(
            described_track(entries[k])->Some_0,
        ),
    decreases entries.len(),
{
    let track = described_track(entries[k])->Some_0;
    let front = tracks_of_kind(entries.drop_last(), track.kind);
    let all = tracks_of_kind(entries, track.kind);
    if k < entries.len() - 1 {
        law_tracks_are_all_listed(entries.drop_last(), k);
        let i = choose|i: int| 0 <= i < front.len() && front[i] == track;
        assert(all[i] == track);
    } else {
        assert(all[front.len() as int] == track);
    }
}

/// A track is described by an entry with a kind and a number; each of its fields is that
/// of the entry, and a flag is set exactly if the entry says so.
pub proof fn law_track_is_as_described(entry: Tree)
    ensures
        match described_track(entry) {
            Some(track) => {
                &&& entry.at("type"@) == Tree::Text(track.kind)
                &&& entry.at("id"@) is Number && entry.at("id"@)->Number_0 == Some(track.id)
                &&& track.title == entry.at("title"@).as_text()
                &&& track.lang == entry.at("lang"@).as_text()
                &&& track.codec == entry.at("codec"@).as_text()
                &&& track.external <==> entry.at("external"@) == Tree::Bool(true)
                &&& track.selected <==> entry.at("selected"@) == Tree::Bool(true)
            },
            None => !(entry.at("type"@) is Text) || entry.at("id"@).as_int() is None,
        },
{
}

/// The tracks of a list keep the order of its entries: those of one entry and then
/// others are its track, where it is of the kind, and then theirs.
pub proof fn law_tracks_keep_their_order(entry: Tree, rest: Seq<Tree>, kind: Seq<char>)
    ensures
        tracks_of_kind(seq![entry] + rest, kind) == match described_track(entry) {
            Some(track) => if track.kind == kind {
                seq![track] + tracks_of_kind(rest, kind)
            } else {
                tracks_of_kind(rest, kind)
            },
            None => tracks_of_kind(rest, kind),
        },
    decreases rest.len(),
{
    let all = seq![entry] + rest;
    let expected = match described_track(entry) {
        Some(track) => if track.kind == kind {
            seq![track] + tracks_of_kind(rest, kind)
        } else {
            tracks_of_kind(rest, kind)
        },
        None => tracks_of_kind(rest, kind),
    };
    if rest.len() == 0 {
        reveal_with_fuel(tracks_of_kind, 2);
        assert(all.drop_last() =~= Seq::<Tree>::empty());
        assert(all.last() == entry);
        assert(tracks_of_kind(all, kind) =~= expected);
    } else {
        law_tracks_keep_their_order(entry, rest.drop_last(), kind);
        assert(all.drop_last() =~= seq![entry] + rest.drop_last());
        assert(all.last() == rest.last());
        assert(tracks_of_kind(all, kind) =~= expected);
    }
}

/// A track list changes the two lists of tracks: every subtitle track and every audio
/// track that an entry describes is listed, under its own kind, and nothing else of what
/// is shown changes.
pub proof fn law_track_list_is_taken_over(
    snapshot: PlayerStateSnapshotView,
    entries: Seq<Tree>,
    track: PlayerTrackView,
)
    ensures
        ({
            let after = with_track_list(snapshot, Tree::Array(entries));
            &&& after == (PlayerStateSnapshotView {
                subtitle_tracks: after.subtitle_tracks,
                audio_tracks: after.audio_tracks,
                ..snapshot
            })
            &&& after.subtitle_tracks.contains(track) <==> track.kind == "sub"@ && exists|k: int|
                0 <= k < entries.len() && #[trigger] described_track(entries[k]) == Some(track)
            &&& after.audio_tracks.contains(track) <==> track.kind == "audio"@ && exists|k: int|
                0 <= k < entries.len() && #[trigger] described_track(entries[k]) == Some(track)
        }),
{
    let after = with_track_list(snapshot, Tree::Array(entries));
    if after.subtitle_tracks.contains(track) {
        law_tracks_are_of_their_kind(entries, "sub"@, after.subtitle_tracks.index_of(track));
    }
    if after.audio_tracks.contains(track) {
        law_tracks_are_of_their_kind(entries, "audio"@, after.audio_tracks.index_of(track));
    }
    if exists|k: int|
        0 <= k < entries.len() && #[trigger] described_track(entries[k]) == Some(track) {
        let k = choose|k: int|
            0 <= k < entries.len() && #[trigger] described_track(entries[k]) == Some(track);
        law_tracks_are_all_listed(entries, k);
    }
}

/// What is no list leaves no tracks.
pub proof fn law_no_list_leaves_no_tracks(snapshot: PlayerStateSnapshotView, data: Tree)
    requires
        !(data is Array),
    ensures
        with_track_list(snapshot, data).subtitle_tracks.len() == 0,
        with_track_list(snapshot, data).audio_tracks.len() == 0,
{
}

}
