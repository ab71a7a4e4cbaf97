//! What the messages of the player process do to the state of a session.
use crate::double::Double;
use crate::json::parse_json;
use crate::json::parsed_json;
use crate::json::Json;
use crate::json::Tree;
use crate::models::PlayerStateSnapshot;
use crate::models::PlayerStateSnapshotView;
use crate::player::ipc::seek_exact_command;
use crate::player::ipc::seek_exact_spec;
use crate::player::ipc::IpcCommand;
use crate::player::ipc::IpcCommandView;
use crate::player::ipc::TRACK_LIST_REQUEST;
use crate::player::ipc::VOLUME_REQUEST;
use crate::player::tracks::update_track_list;
use crate::player::tracks::with_track_list;
use crate::progress::counts_as_watched;
use crate::progress::persist_snapshot;
use crate::progress::should_mark_watched;
use crate::progress::snapshot_progress;
use crate::progress::ProgressUpdate;
use crate::progress::ProgressUpdateView;
use crate::progress::WatchMarks;
use crate::text::is_text;
use crate::text::same_text;
use crate::text::trim;
use crate::text::trimmed;
use vstd::prelude::*;

verus! {

/// How often a position is kept while a video plays, in milliseconds.
pub const PROGRESS_PERSIST_MILLIS: u64 = 2000;

/// What a session of the player shows, and the position that it will seek to
/// once its file is loaded.
#[derive(Debug)]
pub struct PlayerShared {
    pub snapshot: PlayerStateSnapshot,
    pub pending_resume_secs: Option<Double>,
}

#[verifier::ext_equal]
pub struct PlayerSharedView {
    pub snapshot: PlayerStateSnapshotView,
    pub pending_resume_secs: Option<Double>,
}

impl View for PlayerShared {
    type V = PlayerSharedView;

    open spec fn view(&self) -> PlayerSharedView {
        PlayerSharedView {
            snapshot: self.snapshot@,
            pending_resume_secs: self.pending_resume_secs,
        }
    }
}

/// What a message asks for, besides the change of state.
#[derive(Debug, Clone, Copy, PartialEq, Eq, Structural)]
pub struct Reaction {
    /// The position to seek to.
    pub seek_secs: Option<Double>,
    /// The position is to be kept.
    pub persist: bool,
    /// The state is to be shown.
    pub emit_state: bool,
    /// The catalogue is to be read again.
    pub emit_sync: bool,
    /// The session has ended.
    pub cleanup: bool,
}

/// The event that a message tells of.
pub open spec fn event_of(message: Tree) -> Option<Seq<char>> {
    message.text_field("event"@)
}

/// The state after a property changed; nothing where the property is not one
/// that the state holds.
pub open spec fn with_property(
    snapshot: PlayerStateSnapshotView,
    property: Seq<char>,
    data: Tree,
) -> Option<PlayerStateSnapshotView> {
    if property == "time-pos"@ {
        Some(
            PlayerStateSnapshotView {
                position_secs: match data.as_double() {
                    Some(secs) => secs.floored(),
                    None => Double { bits: 0 },
                },
                ..snapshot
            },
        )
    } else if property == "duration"@ {
        Some(PlayerStateSnapshotView { duration_secs: data.as_double(), ..snapshot })
    } else if property == "pause"@ {
        Some(PlayerStateSnapshotView { paused: data.as_bool() == Some(true), ..snapshot })
    } else if property == "volume"@ {
        Some(
            PlayerStateSnapshotView {
                volume: match data.as_double() {
                    Some(volume) => volume,
                    None => snapshot.volume,
                },
                ..snapshot
            },
        )
    } else if property == "track-list"@ {
        Some(with_track_list(snapshot, data))
    } else if property == "sid"@ {
        Some(PlayerStateSnapshotView { active_subtitle_id: data.as_int(), ..snapshot })
    } else if property == "aid"@ {
        Some(PlayerStateSnapshotView { active_audio_id: data.as_int(), ..snapshot })
    } else {
        None
    }
}

/// The state after the reply to a request; nothing where the reply changes
/// nothing.
pub open spec fn with_reply(
    snapshot: PlayerStateSnapshotView,
    request_id: i64,
    data: Tree,
) -> Option<PlayerStateSnapshotView> {
    if request_id == TRACK_LIST_REQUEST {
        Some(with_track_list(snapshot, data))
    } else if request_id == VOLUME_REQUEST {
        match data.as_double() {
            Some(volume) => Some(PlayerStateSnapshotView { volume, ..snapshot }),
            None => None,
        }
    } else {
        None
    }
}

/// The name of the property that a message tells of.
pub open spec fn property_of(message: Tree) -> Seq<char> {
    match message.text_field("name"@) {
        Some(name) => name,
        None => Seq::empty(),
    }
}

/// The state with the change of a property that a message tells of.
pub open spec fn property_change(
    snapshot: PlayerStateSnapshotView,
    message: Tree,
) -> Option<PlayerStateSnapshotView> {
    if event_of(message) == Some("property-change"@) {
        with_property(snapshot, property_of(message), message.at("data"@))
    } else {
        None
    }
}

/// The state with the reply that a message is.
pub open spec fn reply_change(
    snapshot: PlayerStateSnapshotView,
    message: Tree,
) -> Option<PlayerStateSnapshotView> {
    match message.at("request_id"@).as_int() {
        Some(request_id) => with_reply(snapshot, request_id, message.at("data"@)),
        None => None,
    }
}

/// `changed`, or `snapshot` where nothing changed.
pub open spec fn or_unchanged(
    changed: Option<PlayerStateSnapshotView>,
    snapshot: PlayerStateSnapshotView,
) -> PlayerStateSnapshotView {
    match changed {
        Some(s) => s,
        None => snapshot,
    }
}

/// The state after a message: a loaded file is noted, and nothing is pending any
/// more; then the property that changed, and then the reply, are taken over.
pub open spec fn shared_after(shared: PlayerSharedView, message: Tree) -> PlayerSharedView {
    let loaded = event_of(message) == Some("file-loaded"@);
    let first = PlayerStateSnapshotView {
        is_loaded: shared.snapshot.is_loaded || loaded,
        ..shared.snapshot
    };
    let second = or_unchanged(property_change(first, message), first);
    PlayerSharedView {
        snapshot: or_unchanged(reply_change(second, message), second),
        pending_resume_secs: if loaded {
            None
        } else {
            shared.pending_resume_secs
        },
    }
}

/// What a message asks for.
pub open spec fn reaction_to(shared: PlayerSharedView, message: Tree) -> Reaction {
    let event = event_of(message);
    let loaded = event == Some("file-loaded"@);
    let ended = event == Some("end-file"@);
    Reaction {
        seek_secs: if loaded {
            shared.pending_resume_secs
        } else {
            None
        },
        persist: ended,
        emit_state: loaded || property_change(shared.snapshot, message) is Some || reply_change(
            shared.snapshot,
            message,
        ) is Some,
        emit_sync: ended,
        cleanup: event == Some("shutdown"@),
    }
}

/// Takes the change of a property over. Tells whether the state holds that
/// property.
fn apply_property(snapshot: &mut PlayerStateSnapshot, property: &str, data: &Json) -> (r: bool)
    ensures
        r == (with_property(old(snapshot)@, property@, data@) is Some),
        final(snapshot)@ == or_unchanged(
            with_property(old(snapshot)@, property@, data@),
            old(snapshot)@,
        ),
{
    if same_text(property, "time-pos") {
        snapshot.position_secs =
        match data.as_double() {
            Some(secs) => secs.at_least_zero(),
            None => Double { bits: 0 },
        };
        true
    } else if same_text(property, "duration") {
        snapshot.duration_secs = data.as_double();
        true
    } else if same_text(property, "pause") {
        snapshot.paused =
        match data.as_bool() {
            Some(paused) => paused,
            None => false,
        };
        true
    } else if same_text(property, "volume") {
        snapshot.volume =
        match data.as_double() {
            Some(volume) => volume,
            None => snapshot.volume,
        };
        true
    } else if same_text(property, "track-list") {
        update_track_list(snapshot, data);
        true
    } else if same_text(property, "sid") {
        snapshot.active_subtitle_id = data.as_i64();
        true
    } else if same_text(property, "aid") {
        snapshot.active_audio_id = data.as_i64();
        true
    } else {
        false
    }
}

/// Takes the reply to a request over. Tells whether it changed anything.
fn apply_reply(snapshot: &mut PlayerStateSnapshot, request_id: i64, data: &Json) -> (r: bool)
    ensures
        r == (with_reply(old(snapshot)@, request_id, data@) is Some),
        final(snapshot)@ == or_unchanged(
            with_reply(old(snapshot)@, request_id, data@),
            old(snapshot)@,
        ),
{
    if request_id == TRACK_LIST_REQUEST {
        update_track_list(snapshot, data);
        true
    } else if request_id == VOLUME_REQUEST {
        match data.as_double() {
            Some(volume) => {
                snapshot.volume = volume;
                true
            },
            None => false,
        }
    } else {
        false
    }
}

/// The events that are told apart are not the same.
proof fn lemma_events_differ()
    ensures
        "file-loaded"@ != "end-file"@,
        "file-loaded"@ != "shutdown"@,
        "end-file"@ != "shutdown"@,
{
    reveal_strlit("file-loaded");
    reveal_strlit("end-file");
    reveal_strlit("shutdown");
    assert("file-loaded"@.len() != "end-file"@.len());
    assert("file-loaded"@.len() != "shutdown"@.len());
    assert("end-file"@[0] != "shutdown"@[0]);
}

impl PlayerShared {
    /// Takes one message of the player process over.
    pub fn handle_message(&mut self, message: &Json) -> (r: Reaction)
        ensures
            final(self)@ == shared_after(old(self)@, message@),
            r == reaction_to(old(self)@, message@),
    {
        proof {
            lemma_events_differ();
        }
        let event = message.text_at("event");
        let null = Json::Null;
        let data = match message.get("data") {
            Some(data) => data,
            None => &null,
        };
        assert(data@ == message@.at("data"@));
        let mut reaction = Reaction {
            seek_secs: None,
            persist: false,
            emit_state: false,
            emit_sync: false,
            cleanup: false,
        };
        if is_text(&event, "file-loaded") {
            self.snapshot.is_loaded = true;
            reaction.seek_secs = self.pending_resume_secs;
            self.pending_resume_secs = None;
            reaction.emit_state = true;
        } else if is_text(&event, "end-file") {
            reaction.persist = true;
            reaction.emit_sync = true;
        } else if is_text(&event, "shutdown") {
            reaction.cleanup = true;
        }
        if is_text(&event, "property-change") {
            let property = match message.text_at("name") {
                Some(name) => name,
                None => String::new(),
            };
            if apply_property(&mut self.snapshot, property.as_str(), data) {
                reaction.emit_state = true;
            }
        }
        match message.int_at("request_id") {
            Some(request_id) => {
                if apply_reply(&mut self.snapshot, request_id, data) {
                    reaction.emit_state = true;
                }
            },
            None => {},
        }
        reaction
    }
}

/// Reads one line from the player process; nothing where it is no message.
pub fn read_message(line: &str) -> (r: Option<Json>)
    ensures
        match r {
            Some(j) => parsed_json(trimmed(line@)) == Some(j@),
            None => parsed_json(trimmed(line@)) is None,
        },
{
    parse_json(trim(line).as_str())
}

/// What came of reading a line from the player process.
#[derive(Debug)]
pub enum LineRead {
    Line(String),
    /// There is nothing more to read.
    End,
    /// It failed.
    Failed,
}

/// What follows reading a line from the player process.
#[derive(Debug)]
pub enum ReaderStep {
    /// Take this message over, and read on.
    Handle(Json),
    /// Read on.
    Skip,
    /// End the session, and read no more.
    CleanUp,
}

/// Decides on what was read from the player process: a line that is no message is
/// passed over, and the session ends where nothing more can be read.
pub fn reader_step(read: LineRead) -> (r: ReaderStep)
    ensures
        match read {
            LineRead::Line(line) => match parsed_json(trimmed(line@)) {
                Some(tree) => r matches ReaderStep::Handle(message) && message@ == tree,
                None => r is Skip,
            },
            LineRead::End => r is CleanUp,
            LineRead::Failed => r is CleanUp,
        },
{
    match read {
        LineRead::Line(line) => match read_message(line.as_str()) {
            Some(message) => ReaderStep::Handle(message),
            None => ReaderStep::Skip,
        },
        LineRead::End => ReaderStep::CleanUp,
        LineRead::Failed => ReaderStep::CleanUp,
    }
}

/// Something that the program does after a message.
#[derive(Debug)]
pub enum PlayerAction {
    /// Send a command to the player process.
    Send(IpcCommand),
    /// Keep a position.
    Persist(ProgressUpdate),
    /// Count the time until a position is kept anew.
    RestartTimer,
    /// Show the state.
    ShowState(PlayerStateSnapshot),
    /// Read the catalogue again.
    Resync,
    /// End the session.
    CleanUp,
}

pub enum PlayerActionView {
    Send(IpcCommandView),
    Persist(ProgressUpdateView),
    RestartTimer,
    ShowState(PlayerStateSnapshotView),
    Resync,
    CleanUp,
}

impl View for PlayerAction {
    type V = PlayerActionView;

    open spec fn view(&self) -> PlayerActionView {
        match *self {
            PlayerAction::Send(c) => PlayerActionView::Send(c@),
            PlayerAction::Persist(u) => PlayerActionView::Persist(u@),
            PlayerAction::RestartTimer => PlayerActionView::RestartTimer,
            PlayerAction::ShowState(s) => PlayerActionView::ShowState(s@),
            PlayerAction::Resync => PlayerActionView::Resync,
            PlayerAction::CleanUp => PlayerActionView::CleanUp,
        }
    }
}

/// The actions in specifications.
pub open spec fn view_actions(actions: Seq<PlayerAction>) -> Seq<PlayerActionView> {
    actions.map_values(|a: PlayerAction| a@)
}

/// `action`, where `wanted`.
pub open spec fn action_if(wanted: bool, action: PlayerActionView) -> Seq<PlayerActionView> {
    if wanted {
        seq![action]
    } else {
        Seq::empty()
    }
}

/// Keeping an update, where there is one.
pub open spec fn keep(update: Option<ProgressUpdateView>) -> Seq<PlayerActionView> {
    match update {
        Some(u) => seq![PlayerActionView::Persist(u)],
        None => Seq::empty(),
    }
}

/// Seeking to a position, where there is one.
pub open spec fn seek(position_secs: Option<Double>) -> Seq<PlayerActionView> {
    match position_secs {
        Some(secs) => seq![PlayerActionView::Send(seek_exact_spec(secs))],
        None => Seq::empty(),
    }
}

/// It is time to keep the position: long enough ago that it was kept, or the
/// video counts as watched.
pub open spec fn keeping_is_due(elapsed_millis: u64, completed: bool) -> bool {
    elapsed_millis >= PROGRESS_PERSIST_MILLIS || completed
}

/// What is done after a message, in this order.
pub open spec fn actions_after(
    snapshot: PlayerStateSnapshotView,
    reaction: Reaction,
    elapsed_millis: u64,
    marks: Option<WatchMarks>,
) -> Seq<PlayerActionView> {
    let due = keeping_is_due(elapsed_millis, counts_as_watched(snapshot.position_secs, marks));
    let progress = snapshot_progress(snapshot, marks);
    seek(reaction.seek_secs) + (if reaction.persist {
        keep(progress)
    } else {
        Seq::empty()
    }) + (if due {
        keep(progress)
    } else {
        Seq::empty()
    }) + action_if(due, PlayerActionView::RestartTimer) + action_if(
        reaction.emit_state,
        PlayerActionView::ShowState(snapshot),
    ) + action_if(reaction.emit_sync || due, PlayerActionView::Resync) + action_if(
        reaction.cleanup,
        PlayerActionView::CleanUp,
    )
}

fn push_action(actions: &mut Vec<PlayerAction>, action: PlayerAction)
    ensures
        view_actions(final(actions)@) == view_actions(old(actions)@) + seq![action@],
{
    actions.push(action);
    assert(view_actions(actions@) =~= view_actions(old(actions)@) + seq![action@]);
}

impl PlayerShared {
    /// What is to be done after a message was taken over: `reaction` is what the
    /// message asked for, `elapsed_millis` the time since a position was last
    /// kept, and `marks` are those of the duration that the state now shows.
    pub fn finish_message(
        &self,
        reaction: &Reaction,
        elapsed_millis: u64,
        marks: Option<WatchMarks>,
    ) -> (r: Vec<PlayerAction>)
        ensures
            view_actions(r@) == actions_after(self@.snapshot, *reaction, elapsed_millis, marks),
    {
        let mut actions: Vec<PlayerAction> = Vec::new();
        assert(view_actions(actions@) =~= Seq::empty());
        match reaction.seek_secs {
            Some(secs) => {
                push_action(&mut actions, PlayerAction::Send(seek_exact_command(secs)));
            },
            None => {},
        }
        if reaction.persist {
            match persist_snapshot(&self.snapshot, marks) {
                Some(update) => {
                    push_action(&mut actions, PlayerAction::Persist(update));
                },
                None => {},
            }
        }
        let due = elapsed_millis >= PROGRESS_PERSIST_MILLIS || should_mark_watched(
            self.snapshot.position_secs,
            marks,
        );
        if due {
            match persist_snapshot(&self.snapshot, marks) {
                Some(update) => {
                    push_action(&mut actions, PlayerAction::Persist(update));
                },
                None => {},
            }
            push_action(&mut actions, PlayerAction::RestartTimer);
        }
        if reaction.emit_state {
            push_action(&mut actions, PlayerAction::ShowState(self.snapshot.clone()));
        }
        if reaction.emit_sync || due {
            push_action(&mut actions, PlayerAction::Resync);
        }
        if reaction.cleanup {
            push_action(&mut actions, PlayerAction::CleanUp);
        }
        assert(view_actions(actions@) =~= actions_after(
            self@.snapshot,
            *reaction,
            elapsed_millis,
            marks,
        ));
        actions
    }
}

/// No message changes which video is open, its title, or whether the window is
/// full screen.
pub proof fn law_messages_keep_the_video(shared: PlayerSharedView, message: Tree)
    ensures
        shared_after(shared, message).snapshot.video_id == shared.snapshot.video_id,
        shared_after(shared, message).snapshot.video_path == shared.snapshot.video_path,
        shared_after(shared, message).snapshot.title == shared.snapshot.title,
        shared_after(shared, message).snapshot.fullscreen == shared.snapshot.fullscreen,
{
}

/// The position that is shown is never negative, whatever messages come.
pub proof fn law_position_is_not_negative(shared: PlayerSharedView, message: Tree)
    requires
        shared.snapshot.position_secs.at_least(Double { bits: 0 }),
    ensures
        shared_after(shared, message).snapshot.position_secs.at_least(Double { bits: 0 }),
{
}

/// Whatever changes the state that is shown also shows it.
pub proof fn law_changes_are_shown(shared: PlayerSharedView, message: Tree)
    requires
        !reaction_to(shared, message).emit_state,
    ensures
        shared_after(shared, message) == shared,
{
    assert(shared_after(shared, message) =~= shared);
}

/// A position that is pending is sought once: when the file is loaded, and
/// never again.
pub proof fn law_pending_position_is_sought_once(shared: PlayerSharedView, message: Tree)
    ensures
        reaction_to(shared, message).seek_secs is Some ==> reaction_to(shared, message).seek_secs
            == shared.pending_resume_secs && shared_after(
            shared,
            message,
        ).pending_resume_secs is None,
        reaction_to(shared, message).seek_secs is None ==> shared_after(
            shared,
            message,
        ).pending_resume_secs == shared.pending_resume_secs,
{
}

/// The state after messages, in their order.
pub open spec fn shared_after_all(shared: PlayerSharedView, messages: Seq<Tree>) -> PlayerSharedView
    decreases messages.len(),
{
    if messages.len() == 0 {
        shared
    } else {
        shared_after(shared_after_all(shared, messages.drop_last()), messages.last())
    }
}

/// Once a file is loaded no message asks for a seek, and nothing is pending,
/// whatever messages come between, until another video is asked for.
pub proof fn law_no_second_seek(
    shared: PlayerSharedView,
    loaded: Tree,
    between: Seq<Tree>,
    later: Tree,
)
    requires
        event_of(loaded) == Some("file-loaded"@),
    ensures
        shared_after(shared, loaded).snapshot.is_loaded,
        reaction_to(shared, loaded).seek_secs == shared.pending_resume_secs,
        shared_after_all(shared_after(shared, loaded), between).pending_resume_secs is None,
        reaction_to(
            shared_after_all(shared_after(shared, loaded), between),
            later,
        ).seek_secs is None,
    decreases between.len(),
{
    if between.len() > 0 {
        law_no_second_seek(shared, loaded, between.drop_last(), later);
    }
}

/// After a message at most one command is sent: the exact seek that the message
/// asks for, before anything else is done. The session ends exactly if the message
/// asks for it, and that is done last.
pub proof fn law_one_seek_is_sent(
    snapshot: PlayerStateSnapshotView,
    reaction: Reaction,
    elapsed_millis: u64,
    marks: Option<WatchMarks>,
    i: int,
)
    requires
        0 <= i < actions_after(snapshot, reaction, elapsed_millis, marks).len(),
    ensures
        ({
            let actions = actions_after(snapshot, reaction, elapsed_millis, marks);
            &&& actions[i] is Send <==> i == 0 && reaction.seek_secs is Some
            &&& reaction.seek_secs matches Some(secs) ==> actions[0] == PlayerActionView::Send(
                seek_exact_spec(secs),
            )
            &&& actions[i] is CleanUp <==> i == actions.len() - 1 && reaction.cleanup
        }),
{
    let due = keeping_is_due(elapsed_millis, counts_as_watched(snapshot.position_secs, marks));
    let kept = keep(snapshot_progress(snapshot, marks));
    let first = seek(reaction.seek_secs);
    let n = first.len() as int;
    let asked = if reaction.persist {
        kept
    } else {
        Seq::empty()
    };
    let timed = if due {
        kept
    } else {
        Seq::empty()
    };
    let timer = action_if(due, PlayerActionView::RestartTimer);
    let shown = action_if(reaction.emit_state, PlayerActionView::ShowState(snapshot));
    let sync = action_if(reaction.emit_sync || due, PlayerActionView::Resync);
    let last = action_if(reaction.cleanup, PlayerActionView::CleanUp);
    let most = first + asked + timed + timer + shown + sync;
    assert(quiet_from(most, n) && most.take(n) == first) by {
        assert(first.take(n) =~= first);
        lemma_quiet_part(first, asked, n);
        lemma_quiet_part(first + asked, timed, n);
        lemma_quiet_part(first + asked + timed, timer, n);
        lemma_quiet_part(first + asked + timed + timer, shown, n);
        lemma_quiet_part(first + asked + timed + timer + shown, sync, n);
    }
    let actions = actions_after(snapshot, reaction, elapsed_millis, marks);
    assert(actions == most + last);
    if n > 0 {
        assert(most.take(n)[0] == most[0]);
    }
    if i < most.len() {
        assert(actions[i] == most[i]);
    }
}

/// From `n` on no command is sent and the session is not ended.
spec fn quiet_from(actions: Seq<PlayerActionView>, n: int) -> bool {
    &&& 0 <= n <= actions.len()
    &&& forall|i: int|
        n <= i < actions.len() ==> !(#[trigger] actions[i] is Send) && !(actions[i] is CleanUp)
}

proof fn lemma_quiet_part(head: Seq<PlayerActionView>, part: Seq<PlayerActionView>, n: int)
    requires
        quiet_from(head, n),
        quiet_from(part, 0),
    ensures
        quiet_from(head + part, n),
        (head + part).take(n) == head.take(n),
{
    let all = head + part;
    assert forall|i: int| n <= i < all.len() implies !(#[trigger] all[i] is Send) && !(
    all[i] is CleanUp) by {
        if i < head.len() {
            assert(all[i] == head[i]);
        } else {
            assert(all[i] == part[i - head.len()]);
        }
    }
    assert(all.take(n) =~= head.take(n));
}

/// A message tells of a change of a property, and answers no request.
pub open spec fn tells_change(message: Tree, property: Seq<char>) -> bool {
    &&& message.at("event"@) == Tree::Text("property-change"@)
    &&& message.at("name"@) == Tree::Text(property)
    &&& message.at("request_id"@).as_int() is None
}

/// A message answers a request, and tells of no event.
pub open spec fn answers(message: Tree, request_id: i64) -> bool {
    &&& message.at("event"@).as_text() is None
    &&& message.at("request_id"@) is Number
    &&& message.at("request_id"@)->Number_0 == Some(request_id)
}

proof fn lemma_names_differ()
    ensures
        "property-change"@ != "file-loaded"@,
        "property-change"@ != "end-file"@,
        "property-change"@ != "shutdown"@,
        "time-pos"@ != "duration"@,
        "time-pos"@.len() == 8,
        "duration"@.len() == 8,
        "pause"@.len() == 5,
        "volume"@.len() == 6,
        "track-list"@.len() == 10,
        "sid"@ != "aid"@,
        "sid"@.len() == 3,
        "aid"@.len() == 3,
{
    reveal_strlit("property-change");
    reveal_strlit("file-loaded");
    reveal_strlit("end-file");
    reveal_strlit("shutdown");
    reveal_strlit("time-pos");
    reveal_strlit("duration");
    reveal_strlit("pause");
    reveal_strlit("volume");
    reveal_strlit("track-list");
    reveal_strlit("sid");
    reveal_strlit("aid");
    assert("time-pos"@[0] != "duration"@[0]);
    assert("sid"@[0] != "aid"@[0]);
    assert("property-change"@.len() == 15);
    assert("file-loaded"@.len() == 11);
    assert("end-file"@.len() == 8);
    assert("shutdown"@.len() == 8);
}

/// A change of `pause` is shown: the video is shown as paused exactly if the player says
/// that it is, for both answers, and nothing else that is shown changes.
pub proof fn law_pause_is_followed(shared: PlayerSharedView, message: Tree, paused: bool)
    requires
        tells_change(message, "pause"@),
        message.at("data"@) == Tree::Bool(paused),
    ensures
        shared_after(shared, message).snapshot == (PlayerStateSnapshotView {
            paused,
            ..shared.snapshot
        }),
        reaction_to(shared, message).emit_state,
{
    lemma_names_differ();
}

/// A change of `time-pos` is shown: the position is the one that the player tells, or the
/// start where that is not above zero; without a number it is the start.
pub proof fn law_position_is_followed(shared: PlayerSharedView, message: Tree)
    requires
        tells_change(message, "time-pos"@),
    ensures
        shared_after(shared, message).snapshot == (PlayerStateSnapshotView {
            position_secs: shared_after(shared, message).snapshot.position_secs,
            ..shared.snapshot
        }),
        match message.at("data"@).as_double() {
            Some(secs) => if secs.above(Double { bits: 0 }) {
                shared_after(shared, message).snapshot.position_secs == secs
            } else {
                shared_after(shared, message).snapshot.position_secs == (Double { bits: 0 })
            },
            None => shared_after(shared, message).snapshot.position_secs == (Double { bits: 0 }),
        },
        reaction_to(shared, message).emit_state,
{
    lemma_names_differ();
}

/// A change of `duration` is shown: the duration is the number that the player tells, or
/// is not known where it tells none.
pub proof fn law_duration_is_followed(shared: PlayerSharedView, message: Tree)
    requires
        tells_change(message, "duration"@),
    ensures
        shared_after(shared, message).snapshot == (PlayerStateSnapshotView {
            duration_secs: message.at("data"@).as_double(),
            ..shared.snapshot
        }),
        reaction_to(shared, message).emit_state,
{
    lemma_names_differ();
}

/// A change of `volume` is shown: the volume is the number that the player tells, and
/// stays where it tells none.
pub proof fn law_volume_is_followed(shared: PlayerSharedView, message: Tree)
    requires
        tells_change(message, "volume"@),
    ensures
        message.at("data"@).as_double() matches Some(volume) ==> shared_after(
            shared,
            message,
        ).snapshot == (PlayerStateSnapshotView { volume, ..shared.snapshot }),
        message.at("data"@).as_double() is None ==> shared_after(shared, message).snapshot
            == shared.snapshot,
        reaction_to(shared, message).emit_state,
{
    lemma_names_differ();
}

/// Changes of `sid` and `aid` are shown: the active track is the number that the player
/// tells, and none where it tells none.
pub proof fn law_active_tracks_are_followed(shared: PlayerSharedView, message: Tree)
    ensures
        tells_change(message, "sid"@) ==> shared_after(shared, message).snapshot == (
        PlayerStateSnapshotView {
            active_subtitle_id: message.at("data"@).as_int(),
            ..shared.snapshot
        }) && reaction_to(shared, message).emit_state,
        tells_change(message, "aid"@) ==> shared_after(shared, message).snapshot == (
        PlayerStateSnapshotView {
            active_audio_id: message.at("data"@).as_int(),
            ..shared.snapshot
        }) && reaction_to(shared, message).emit_state,
{
    lemma_names_differ();
}

/// A change of `track-list`, and the answer to the request for it, are shown: the lists
/// are those of the data.
pub proof fn law_track_list_is_followed(shared: PlayerSharedView, message: Tree)
    requires
        tells_change(message, "track-list"@) || answers(message, 100),
    ensures
        shared_after(shared, message).snapshot == with_track_list(
            shared.snapshot,
            message.at("data"@),
        ),
        reaction_to(shared, message).emit_state,
{
    lemma_names_differ();
}

/// The answer to the request for the volume is shown where it is a number, and changes
/// nothing otherwise.
pub proof fn law_volume_answer_is_taken_over(shared: PlayerSharedView, message: Tree)
    requires
        answers(message, 101),
    ensures
        message.at("data"@).as_double() matches Some(volume) ==> shared_after(
            shared,
            message,
        ).snapshot == (PlayerStateSnapshotView { volume, ..shared.snapshot }) && reaction_to(
            shared,
            message,
        ).emit_state,
        message.at("data"@).as_double() is None ==> shared_after(shared, message) == shared
            && !reaction_to(shared, message).emit_state,
{
}

/// A message that tells of a property that is not shown, and one that answers another
/// request, change nothing and ask for nothing.
pub proof fn law_other_messages_change_nothing(
    shared: PlayerSharedView,
    message: Tree,
    property: Seq<char>,
    request_id: i64,
)
    requires
        tells_change(message, property) && property != "time-pos"@ && property != "duration"@
            && property != "pause"@ && property != "volume"@ && property != "track-list"@ && property
            != "sid"@ && property != "aid"@ || answers(message, request_id) && request_id != 100
            && request_id != 101,
    ensures
        shared_after(shared, message) == shared,
        reaction_to(shared, message) == (Reaction {
            seek_secs: None,
            persist: false,
            emit_state: false,
            emit_sync: false,
            cleanup: false,
        }),
{
    lemma_names_differ();
    assert(shared_after(shared, message) =~= shared);
}

/// What the other events ask for: a loaded file is shown and the pending position sought;
/// at the end of a file the position is kept and the catalogue read again; a shutdown
/// ends the session. None of them changes what is shown but that the file is loaded.
pub proof fn law_events_are_followed(shared: PlayerSharedView, message: Tree)
    requires
        message.at("request_id"@).as_int() is None,
    ensures
        message.at("event"@) == Tree::Text("file-loaded"@) ==> shared_after(shared, message) == (
        PlayerSharedView {
            snapshot: PlayerStateSnapshotView { is_loaded: true, ..shared.snapshot },
            pending_resume_secs: None,
        }) && reaction_to(shared, message) == (Reaction {
            seek_secs: shared.pending_resume_secs,
            persist: false,
            emit_state: true,
            emit_sync: false,
            cleanup: false,
        }),
        message.at("event"@) == Tree::Text("end-file"@) ==> shared_after(shared, message) == shared
            && reaction_to(shared, message) == (Reaction {
            seek_secs: None,
            persist: true,
            emit_state: false,
            emit_sync: true,
            cleanup: false,
        }),
        message.at("event"@) == Tree::Text("shutdown"@) ==> shared_after(shared, message) == shared
            && reaction_to(shared, message) == (Reaction {
            seek_secs: None,
            persist: false,
            emit_state: false,
            emit_sync: false,
            cleanup: true,
        }),
{
    lemma_names_differ();
    lemma_events_differ();
    if message.at("event"@) == Tree::Text("end-file"@) || message.at("event"@) == Tree::Text(
        "shutdown"@,
    ) {
        assert(shared_after(shared, message) =~= shared);
    }
}

/// A position is kept at the end of a file, two seconds after it was last kept, and once
/// the video counts as watched; what is kept is what is kept of the state that is shown.
/// The time is counted anew exactly after the latter two. The state is shown exactly if
/// the message asks for it, and is the one that is shown; the catalogue is read again
/// whenever a position may have been kept.
pub proof fn law_what_is_done_after_a_message(
    snapshot: PlayerStateSnapshotView,
    reaction: Reaction,
    elapsed_millis: u64,
    marks: Option<WatchMarks>,
    other: PlayerStateSnapshotView,
    update: ProgressUpdateView,
)
    ensures
        ({
            let actions = actions_after(snapshot, reaction, elapsed_millis, marks);
            let due = elapsed_millis >= 2000 || counts_as_watched(snapshot.position_secs, marks);
            &&& actions.contains(PlayerActionView::RestartTimer) <==> due
            &&& actions.contains(PlayerActionView::Resync) <==> due || reaction.emit_sync
            &&& actions.contains(PlayerActionView::ShowState(other)) <==> reaction.emit_state
                && other == snapshot
            &&& actions.contains(PlayerActionView::CleanUp) <==> reaction.cleanup
            &&& actions.contains(PlayerActionView::Persist(update)) <==> (due || reaction.persist)
                && snapshot_progress(snapshot, marks) == Some(update)
        }),
{
    let due = keeping_is_due(elapsed_millis, counts_as_watched(snapshot.position_secs, marks));
    let kept = keep(snapshot_progress(snapshot, marks));
    let none = Seq::<PlayerActionView>::empty();
    let p1 = seek(reaction.seek_secs);
    let p2 = if reaction.persist {
        kept
    } else {
        none
    };
    let p3 = if due {
        kept
    } else {
        none
    };
    let p4 = action_if(due, PlayerActionView::RestartTimer);
    let p5 = action_if(reaction.emit_state, PlayerActionView::ShowState(snapshot));
    let p6 = action_if(reaction.emit_sync || due, PlayerActionView::Resync);
    let p7 = action_if(reaction.cleanup, PlayerActionView::CleanUp);
    let actions = actions_after(snapshot, reaction, elapsed_millis, marks);
    assert(actions == p1 + p2 + p3 + p4 + p5 + p6 + p7);
    let timer = PlayerActionView::RestartTimer;
    let sync = PlayerActionView::Resync;
    let show = PlayerActionView::ShowState(other);
    let end = PlayerActionView::CleanUp;
    let save = PlayerActionView::Persist(update);
    lemma_one_of_seven(p1, p2, p3, p4, p5, p6, p7, timer);
    lemma_one_of_seven(p1, p2, p3, p4, p5, p6, p7, sync);
    lemma_one_of_seven(p1, p2, p3, p4, p5, p6, p7, show);
    lemma_one_of_seven(p1, p2, p3, p4, p5, p6, p7, end);
    lemma_one_of_seven(p1, p2, p3, p4, p5, p6, p7, save);
    lemma_short(p1);
    lemma_short(p2);
    lemma_short(p3);
    lemma_short(p4);
    lemma_short(p5);
    lemma_short(p6);
    lemma_short(p7);
}

proof fn lemma_short(part: Seq<PlayerActionView>)
    requires
        part.len() <= 1,
    ensures
        forall|a: PlayerActionView| #[trigger]
            part.contains(a) <==> part.len() == 1 && part[0] == a,
{
}

proof fn lemma_either(one: Seq<PlayerActionView>, other: Seq<PlayerActionView>, a: PlayerActionView)
    ensures
        (one + other).contains(a) <==> one.contains(a) || other.contains(a),
{
    let both = one + other;
    if one.contains(a) {
        let i = one.index_of(a);
        assert(both[i] == a);
    }
    if other.contains(a) {
        let i = other.index_of(a);
        assert(both[one.len() + i] == a);
    }
    if both.contains(a) {
        let i = both.index_of(a);
        if i < one.len() {
            assert(one[i] == a);
        } else {
            assert(other[i - one.len()] == a);
        }
    }
}

proof fn lemma_one_of_seven(
    p1: Seq<PlayerActionView>,
    p2: Seq<PlayerActionView>,
    p3: Seq<PlayerActionView>,
    p4: Seq<PlayerActionView>,
    p5: Seq<PlayerActionView>,
    p6: Seq<PlayerActionView>,
    p7: Seq<PlayerActionView>,
    a: PlayerActionView,
)
    ensures
        (p1 + p2 + p3 + p4 + p5 + p6 + p7).contains(a) <==> p1.contains(a) || p2.contains(a)
            || p3.contains(a) || p4.contains(a) || p5.contains(a) || p6.contains(a) || p7.contains(a),
{
    lemma_either(p1, p2, a);
    lemma_either(p1 + p2, p3, a);
    lemma_either(p1 + p2 + p3, p4, a);
    lemma_either(p1 + p2 + p3 + p4, p5, a);
    lemma_either(p1 + p2 + p3 + p4 + p5, p6, a);
    lemma_either(p1 + p2 + p3 + p4 + p5 + p6, p7, a);
}

/// Any other event changes nothing and asks for nothing.
pub proof fn law_other_events_change_nothing(
    shared: PlayerSharedView,
    message: Tree,
    event: Seq<char>,
)
    requires
        message.at("event"@) == Tree::Text(event),
        event != "file-loaded"@ && event != "end-file"@ && event != "shutdown"@ && event
            != "property-change"@,
        message.at("request_id"@).as_int() is None,
    ensures
        shared_after(shared, message) == shared,
        reaction_to(shared, message) == (Reaction {
            seek_secs: None,
            persist: false,
            emit_state: false,
            emit_sync: false,
            cleanup: false,
        }),
{
    assert(shared_after(shared, message) =~= shared);
}

/// In specifications the shared state has each of its fields under its own name, and
/// actions keep their order and what they carry.
pub proof fn law_actions_in_specifications(
    shared: PlayerShared,
    actions: Seq<PlayerAction>,
    i: int,
)
    requires
        0 <= i < actions.len(),
    ensures
        shared@.snapshot == shared.snapshot@,
        shared@.pending_resume_secs == shared.pending_resume_secs,
        view_actions(actions).len() == actions.len(),
        view_actions(actions)[i] == match actions[i] {
            PlayerAction::Send(command) => PlayerActionView::Send(command@),
            PlayerAction::Persist(update) => PlayerActionView::Persist(update@),
            PlayerAction::RestartTimer => PlayerActionView::RestartTimer,
            PlayerAction::ShowState(state) => PlayerActionView::ShowState(state@),
            PlayerAction::Resync => PlayerActionView::Resync,
            PlayerAction::CleanUp => PlayerActionView::CleanUp,
        },
{
}

}
