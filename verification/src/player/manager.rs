//! The sessions of the player, and which of them is current.
use crate::double::Double;
use crate::json::Json;
use crate::models::idle_snapshot;
use crate::models::PlayerStateSnapshot;
use crate::models::PlayerStateSnapshotView;
use crate::player::ipc::load_file_spec;
use crate::player::ipc::quit_command;
use crate::player::ipc::quit_spec;
use crate::player::ipc::IpcCommand;
use crate::player::messages::actions_after;
use crate::player::messages::reaction_to;
use crate::player::messages::shared_after;
use crate::player::messages::view_actions;
use crate::player::messages::PlayerAction;
use crate::player::messages::PlayerShared;
use crate::player::messages::PlayerSharedView;
use crate::player::messages::Reaction;
use crate::player::session::loading;
use crate::player::session::opened_with;
use crate::player::session::shows_video;
use crate::player::session::VideoSwitch;
use crate::player::surface::PlayerSurfaceBounds;
use crate::progress::persist_snapshot;
use crate::progress::snapshot_progress;
use crate::progress::view_update;
use crate::progress::ProgressUpdate;
use crate::progress::WatchMarks;
use crate::text::copy_text;
use crate::text::view_text;
use vstd::prelude::*;

verus! {

/// A session of the player: one run of the player process.
#[derive(Debug)]
pub struct PlayerSession {
    pub id: u64,
    pub terminated: bool,
    pub shared: PlayerShared,
}

#[verifier::ext_equal]
pub struct PlayerSessionView {
    pub terminated: bool,
    pub shared: PlayerSharedView,
}

impl View for PlayerSession {
    type V = PlayerSessionView;

    open spec fn view(&self) -> PlayerSessionView {
        PlayerSessionView { terminated: self.terminated, shared: self.shared@ }
    }
}

/// A session in a list has the given number.
pub open spec fn has_session(sessions: Seq<PlayerSession>, id: u64) -> bool {
    exists|i: int| 0 <= i < sessions.len() && (#[trigger] sessions[i]).id == id
}

/// The sessions of a list by their numbers.
pub open spec fn sessions_by_id(sessions: Seq<PlayerSession>) -> Map<u64, PlayerSessionView> {
    Map::new(
        |id: u64| has_session(sessions, id),
        |id: u64|
            {
                let i = choose|i: int| 0 <= i < sessions.len() && (#[trigger] sessions[i]).id == id;
                sessions[i]@
            },
    )
}

/// No two sessions of a list have the same number, and all numbers are below
/// `bound`.
pub open spec fn numbered(sessions: Seq<PlayerSession>, bound: u64) -> bool {
    &&& forall|i: int| 0 <= i < sessions.len() ==> (#[trigger] sessions[i]).id < bound
    &&& forall|i: int, j: int|
        0 <= i < j < sessions.len() ==> (#[trigger] sessions[i]).id != (#[trigger] sessions[j]).id
}

/// The sessions of the player.
pub struct PlayerManager {
    sessions: Vec<PlayerSession>,
    session: Option<u64>,
    surface_bounds: Option<PlayerSurfaceBounds>,
    next_id: u64,
}

/// The sessions by their numbers, the number of the current one, the rectangle
/// that was asked for, and how many sessions were begun so far.
#[verifier::ext_equal]
pub struct PlayerManagerView {
    pub sessions: Map<u64, PlayerSessionView>,
    pub session: Option<u64>,
    pub surface_bounds: Option<PlayerSurfaceBounds>,
    pub begun: u64,
}

impl View for PlayerManager {
    type V = PlayerManagerView;

    closed spec fn view(&self) -> PlayerManagerView {
        PlayerManagerView {
            sessions: sessions_by_id(self.sessions@),
            session: self.session,
            surface_bounds: self.surface_bounds,
            begun: self.next_id,
        }
    }
}

impl PlayerManagerView {
    /// The current session is one that there is, and sessions are numbered from
    /// zero in the order in which they began.
    pub open spec fn consistent(self) -> bool {
        &&& self.session matches Some(id) ==> self.sessions.contains_key(id)
        &&& forall|id: u64| #[trigger] self.sessions.contains_key(id) ==> id < self.begun
    }

    /// The state of the current session.
    pub open spec fn current(self) -> Option<PlayerSharedView> {
        match self.session {
            Some(id) => Some(self.sessions[id].shared),
            None => None,
        }
    }

    /// What is shown: the state of the current session, or that of a player in
    /// which nothing is open.
    pub open spec fn shown(self) -> PlayerStateSnapshotView {
        match self.current() {
            Some(shared) => shared.snapshot,
            None => idle_snapshot(),
        }
    }

    /// With another state of a session.
    pub open spec fn with_shared(self, id: u64, shared: PlayerSharedView) -> PlayerManagerView {
        PlayerManagerView {
            sessions: self.sessions.insert(
                id,
                PlayerSessionView { terminated: self.sessions[id].terminated, shared },
            ),
            ..self
        }
    }
}

/// What is to be done when a session ends: its position is kept, the process is
/// told to quit, and the entry of its video is read again.
#[derive(Debug)]
pub struct SessionCleanup {
    pub progress: Option<ProgressUpdate>,
    pub command: IpcCommand,
    pub video_id: Option<String>,
}

proof fn lemma_session_at(sessions: Seq<PlayerSession>, bound: u64, i: int)
    requires
        numbered(sessions, bound),
        0 <= i < sessions.len(),
    ensures
        sessions_by_id(sessions).contains_key(sessions[i].id),
        sessions_by_id(sessions)[sessions[i].id] == sessions[i]@,
{
    let id = sessions[i].id;
    assert(has_session(sessions, id));
    let k = choose|k: int| 0 <= k < sessions.len() && (#[trigger] sessions[k]).id == id;
    if k < i {
        assert(sessions[k].id != sessions[i].id);
    } else if i < k {
        assert(sessions[i].id != sessions[k].id);
    }
}

proof fn lemma_session_replaced(
    sessions: Seq<PlayerSession>,
    bound: u64,
    i: int,
    session: PlayerSession,
)
    requires
        numbered(sessions, bound),
        0 <= i < sessions.len(),
        session.id == sessions[i].id,
    ensures
        numbered(sessions.update(i, session), bound),
        sessions_by_id(sessions.update(i, session)) == sessions_by_id(sessions).insert(
            session.id,
            session@,
        ),
{
    let after = sessions.update(i, session);
    assert forall|j: int| 0 <= j < after.len() implies (#[trigger] after[j]).id
        == sessions[j].id by {}
    assert(numbered(after, bound));
    assert forall|id: u64| has_session(after, id) <==> has_session(sessions, id) by {
        if has_session(after, id) {
            let j = choose|j: int| 0 <= j < after.len() && (#[trigger] after[j]).id == id;
            assert(sessions[j].id == id);
        }
        if has_session(sessions, id) {
            let j = choose|j: int| 0 <= j < sessions.len() && (#[trigger] sessions[j]).id == id;
            assert(after[j].id == id);
        }
    }
    let left = sessions_by_id(after);
    let right = sessions_by_id(sessions).insert(session.id, session@);
    lemma_session_at(sessions, bound, i);
    assert forall|id: u64| left.contains_key(id) implies left[id] == right[id] by {
        let j = choose|j: int| 0 <= j < after.len() && (#[trigger] after[j]).id == id;
        lemma_session_at(after, bound, j);
        lemma_session_at(sessions, bound, j);
        if j != i {
            if j < i {
                assert(sessions[j].id != sessions[i].id);
            } else {
                assert(sessions[i].id != sessions[j].id);
            }
        }
    }
    assert(left =~= right);
}

proof fn lemma_session_added(sessions: Seq<PlayerSession>, session: PlayerSession)
    requires
        numbered(sessions, session.id),
        session.id < u64::MAX,
    ensures
        numbered(sessions.push(session), (session.id + 1) as u64),
        !sessions_by_id(sessions).contains_key(session.id),
        sessions_by_id(sessions.push(session)) == sessions_by_id(sessions).insert(
            session.id,
            session@,
        ),
{
    let after = sessions.push(session);
    let bound = (session.id + 1) as u64;
    assert(numbered(after, bound)) by {
        assert forall|i: int, j: int| 0 <= i < j < after.len() implies (#[trigger] after[i]).id != (
        #[trigger] after[j]).id by {
            assert(after[i] == sessions[i]);
            if j < sessions.len() {
                assert(after[j] == sessions[j]);
            }
        }
        assert forall|i: int| 0 <= i < after.len() implies (#[trigger] after[i]).id < bound by {
            if i < sessions.len() {
                assert(after[i] == sessions[i]);
            }
        }
    }
    let left = sessions_by_id(after);
    let right = sessions_by_id(sessions).insert(session.id, session@);
    assert(after[sessions.len() as int].id == session.id);
    assert forall|id: u64| has_session(after, id) <==> (has_session(sessions, id) || id
        == session.id) by {
        if has_session(after, id) && id != session.id {
            let j = choose|j: int| 0 <= j < after.len() && (#[trigger] after[j]).id == id;
            assert(sessions[j].id == id);
        }
        if has_session(sessions, id) {
            let j = choose|j: int| 0 <= j < sessions.len() && (#[trigger] sessions[j]).id == id;
            assert(after[j].id == id);
        }
    }
    assert forall|id: u64| left.contains_key(id) implies left[id] == right[id] by {
        let j = choose|j: int| 0 <= j < after.len() && (#[trigger] after[j]).id == id;
        lemma_session_at(after, bound, j);
        if j < sessions.len() {
            assert(after[j] == sessions[j]);
            lemma_session_at(sessions, session.id, j);
        }
    }
    assert(left =~= right);
}

proof fn lemma_session_dropped(sessions: Seq<PlayerSession>, bound: u64, i: int)
    requires
        numbered(sessions, bound),
        0 <= i < sessions.len(),
    ensures
        numbered(sessions.remove(i), bound),
        sessions_by_id(sessions.remove(i)) == sessions_by_id(sessions).remove(sessions[i].id),
{
    let after = sessions.remove(i);
    let gone = sessions[i].id;
    assert forall|j: int| 0 <= j < after.len() implies #[trigger] after[j] == sessions[if j < i {
        j
    } else {
        j + 1
    }] by {}
    assert(numbered(after, bound));
    assert forall|id: u64| has_session(after, id) <==> (has_session(sessions, id) && id != gone) by {
        if has_session(after, id) {
            let j = choose|j: int| 0 <= j < after.len() && (#[trigger] after[j]).id == id;
            let k = if j < i {
                j
            } else {
                j + 1
            };
            assert(sessions[k].id == id);
        }
        if has_session(sessions, id) && id != gone {
            let k = choose|k: int| 0 <= k < sessions.len() && (#[trigger] sessions[k]).id == id;
            let j = if k < i {
                k
            } else {
                k - 1
            };
            assert(after[j].id == id);
        }
    }
    let left = sessions_by_id(after);
    let right = sessions_by_id(sessions).remove(gone);
    assert forall|id: u64| left.contains_key(id) implies left[id] == right[id] by {
        let j = choose|j: int| 0 <= j < after.len() && (#[trigger] after[j]).id == id;
        let k = if j < i {
            j
        } else {
            j + 1
        };
        lemma_session_at(after, bound, j);
        lemma_session_at(sessions, bound, k);
    }
    assert(left =~= right);
}

impl PlayerManager {
    /// The sessions are numbered apart, and the current one is among them.
    pub closed spec fn well_formed(self) -> bool {
        &&& numbered(self.sessions@, self.next_id)
        &&& self.session matches Some(id) ==> has_session(self.sessions@, id)
    }

    /// Where in the list a session stands.
    fn position(&self, id: u64) -> (r: Option<usize>)
        requires
            self.well_formed(),
        ensures
            match r {
                Some(i) => i < self.sessions@.len() && self.sessions@[i as int].id == id
                    && self@.sessions.contains_key(id) && self@.sessions[id]
                    == self.sessions@[i as int]@,
                None => !self@.sessions.contains_key(id),
            },
    {
        let mut i: usize = 0;
        while i < self.sessions.len()
            invariant
                self.well_formed(),
                i <= self.sessions@.len(),
                forall|j: int| 0 <= j < i ==> (#[trigger] self.sessions@[j]).id != id,
            decreases self.sessions.len() - i,
        {
            if self.sessions[i].id == id {
                proof {
                    lemma_session_at(self.sessions@, self.next_id, i as int);
                }
                return Some(i);
            }
            i += 1;
        }
        None
    }

    /// A manager without sessions.
    pub fn new() -> (r: PlayerManager)
        ensures
            r.well_formed(),
            r@ == (PlayerManagerView {
                sessions: Map::empty(),
                session: None,
                surface_bounds: None,
                begun: 0,
            }),
    {
        let r = PlayerManager {
            sessions: Vec::new(),
            session: None,
            surface_bounds: None,
            next_id: 0,
        };
        assert(r@.sessions =~= Map::empty());
        r
    }

    /// The number of the current session.
    pub fn get(&self) -> (r: Option<u64>)
        ensures
            r == self@.session,
    {
        self.session
    }

    /// Whether another session can be numbered.
    pub fn has_room(&self) -> (r: bool)
        ensures
            r == (self@.begun < u64::MAX),
    {
        self.next_id < u64::MAX
    }

    /// Begins a session and makes it the current one. Gives its number.
    pub fn set(&mut self, shared: PlayerShared) -> (r: u64)
        requires
            old(self).well_formed(),
            old(self)@.begun < u64::MAX,
        ensures
            final(self).well_formed(),
            r == old(self)@.begun,
            !old(self)@.sessions.contains_key(r),
            final(self)@ == (PlayerManagerView {
                sessions: old(self)@.sessions.insert(
                    r,
                    PlayerSessionView { terminated: false, shared: shared@ },
                ),
                session: Some(r),
                begun: (old(self)@.begun + 1) as u64,
                ..old(self)@
            }),
    {
        let id: u64 = self.next_id;
        let session = PlayerSession { id, terminated: false, shared };
        proof {
            lemma_session_added(self.sessions@, session);
        }
        self.sessions.push(session);
        self.session = Some(id);
        self.next_id = id + 1;
        assert(self.sessions@[self.sessions@.len() - 1].id == id);
        id
    }

    /// Begins a session with a video and makes it the current one. Gives its number.
    pub fn begin(
        &mut self,
        video_id: &str,
        video_path: &str,
        title: &str,
        resume_secs: Double,
        fullscreen: bool,
    ) -> (r: u64)
        requires
            old(self).well_formed(),
            old(self)@.begun < u64::MAX,
        ensures
            final(self).well_formed(),
            r == old(self)@.begun,
            final(self)@.session == Some(r),
            final(self)@.current() == Some(
                opened_with(video_id@, video_path@, title@, resume_secs, fullscreen),
            ),
            final(self)@ == (PlayerManagerView {
                sessions: old(self)@.sessions.insert(
                    r,
                    PlayerSessionView {
                        terminated: false,
                        shared: opened_with(
                            video_id@,
                            video_path@,
                            title@,
                            resume_secs,
                            fullscreen,
                        ),
                    },
                ),
                session: Some(r),
                begun: (old(self)@.begun + 1) as u64,
                ..old(self)@
            }),
    {
        self.set(PlayerShared::opened(video_id, video_path, title, resume_secs, fullscreen))
    }

    /// Leaves no session current, where `id` is the current one. Tells whether it
    /// was.
    pub fn clear_if_current(&mut self, id: u64) -> (r: bool)
        requires
            old(self).well_formed(),
        ensures
            final(self).well_formed(),
            r == (old(self)@.session == Some(id)),
            final(self)@ == (PlayerManagerView {
                session: if r {
                    None
                } else {
                    old(self)@.session
                },
                ..old(self)@
            }),
    {
        match self.session {
            Some(current) => {
                if current == id {
                    self.session = None;
                    true
                } else {
                    false
                }
            },
            None => false,
        }
    }

    /// What is shown.
    pub fn snapshot(&self) -> (r: PlayerStateSnapshot)
        requires
            self.well_formed(),
        ensures
            r@ == self@.shown(),
    {
        match self.session {
            Some(id) => match self.position(id) {
                Some(i) => self.sessions[i].shared.snapshot.clone(),
                None => PlayerStateSnapshot::default(),
            },
            None => PlayerStateSnapshot::default(),
        }
    }

    /// The video that is open in the current session.
    pub fn current_video_id(&self) -> (r: Option<String>)
        requires
            self.well_formed(),
        ensures
            view_text(r) == self@.shown().video_id,
    {
        match self.session {
            Some(id) => match self.position(id) {
                Some(i) => copy_text(&self.sessions[i].shared.snapshot.video_id),
                None => None,
            },
            None => None,
        }
    }

    /// Asks for a rectangle of the window.
    pub fn set_surface_bounds(&mut self, bounds: PlayerSurfaceBounds)
        requires
            old(self).well_formed(),
        ensures
            final(self).well_formed(),
            final(self)@ == (PlayerManagerView { surface_bounds: Some(bounds), ..old(self)@ }),
    {
        self.surface_bounds = Some(bounds);
    }

    /// The rectangle that was asked for last.
    pub fn surface_bounds(&self) -> (r: Option<PlayerSurfaceBounds>)
        ensures
            r == self@.surface_bounds,
    {
        self.surface_bounds
    }

    /// A session that there is, and what it shows.
    pub fn session_state(&self, id: u64) -> (r: Option<&PlayerShared>)
        requires
            self.well_formed(),
        ensures
            match r {
                Some(shared) => self@.sessions.contains_key(id) && shared@
                    == self@.sessions[id].shared,
                None => !self@.sessions.contains_key(id),
            },
    {
        match self.position(id) {
            Some(i) => Some(&self.sessions[i].shared),
            None => None,
        }
    }

    /// Whether a session has ended.
    pub fn is_terminated(&self, id: u64) -> (r: bool)
        requires
            self.well_formed(),
        ensures
            r == (!self@.sessions.contains_key(id) || self@.sessions[id].terminated),
    {
        match self.position(id) {
            Some(i) => self.sessions[i].terminated,
            None => true,
        }
    }
}

impl PlayerManager {
    /// Takes one message of the process of a session over. Gives nothing where
    /// there is no such session.
    pub fn handle_message(&mut self, id: u64, message: &Json) -> (r: Option<Reaction>)
        requires
            old(self).well_formed(),
        ensures
            final(self).well_formed(),
            if old(self)@.sessions.contains_key(id) {
                &&& final(self)@ == old(self)@.with_shared(
                    id,
                    shared_after(old(self)@.sessions[id].shared, message@),
                )
                &&& r == Some(reaction_to(old(self)@.sessions[id].shared, message@))
            } else {
                &&& final(self)@ == old(self)@
                &&& r is None
            },
    {
        match self.position(id) {
            Some(i) => {
                let ghost before = self.sessions@;
                let reaction = self.sessions[i].shared.handle_message(message);
                proof {
                    lemma_session_replaced(before, self.next_id, i as int, self.sessions@[i as int]);
                    assert(self.sessions@ =~= before.update(i as int, self.sessions@[i as int]));
                    assert(forall|k: u64| has_session(before, k) ==> self@.sessions.contains_key(k));
                }
                Some(reaction)
            },
            None => None,
        }
    }

    /// What is to be done after a message was taken over. Nothing is, where there
    /// is no such session.
    pub fn finish_message(
        &self,
        id: u64,
        reaction: &Reaction,
        elapsed_millis: u64,
        marks: Option<WatchMarks>,
    ) -> (r: Vec<PlayerAction>)
        requires
            self.well_formed(),
        ensures
            view_actions(r@) == if self@.sessions.contains_key(id) {
                actions_after(
                    self@.sessions[id].shared.snapshot,
                    *reaction,
                    elapsed_millis,
                    marks,
                )
            } else {
                Seq::empty()
            },
    {
        match self.position(id) {
            Some(i) => self.sessions[i].shared.finish_message(reaction, elapsed_millis, marks),
            None => {
                let none: Vec<PlayerAction> = Vec::new();
                assert(view_actions(none@) =~= Seq::empty());
                none
            },
        }
    }

    /// Loads a video into a session, in place of the one that it shows. Gives
    /// nothing where it shows that video already, or where there is no such
    /// session. `marks` are those of the duration that it shows.
    pub fn load_video_into_session(
        &mut self,
        id: u64,
        video_id: &str,
        video_path: &str,
        title: &str,
        resume_secs: Double,
        marks: Option<WatchMarks>,
    ) -> (r: Option<VideoSwitch>)
        requires
            old(self).well_formed(),
        ensures
            final(self).well_formed(),
            if old(self)@.sessions.contains_key(id) && !shows_video(
                old(self)@.sessions[id].shared,
                video_id@,
                video_path@,
            ) {
                let before = old(self)@.sessions[id].shared;
                &&& final(self)@ == old(self)@.with_shared(
                    id,
                    loading(before, video_id@, video_path@, title@, resume_secs),
                )
                &&& r matches Some(switch)
                &&& view_update(switch.progress) == snapshot_progress(before.snapshot, marks)
                &&& switch.command@ == load_file_spec(video_path@)
                &&& view_text(switch.previous_video_id) == before.snapshot.video_id
            } else {
                &&& final(self)@ == old(self)@
                &&& r is None
            },
    {
        match self.position(id) {
            Some(i) => {
                let ghost before = self.sessions@;
                let switch = self.sessions[i].shared.load_video(
                    video_id,
                    video_path,
                    title,
                    resume_secs,
                    marks,
                );
                proof {
                    lemma_session_replaced(before, self.next_id, i as int, self.sessions@[i as int]);
                    assert(self.sessions@ =~= before.update(i as int, self.sessions@[i as int]));
                    assert(forall|k: u64| has_session(before, k) ==> self@.sessions.contains_key(k));
                    if switch is None {
                        assert(self@.sessions =~= old(self)@.sessions);
                    }
                }
                switch
            },
            None => None,
        }
    }

    /// Notes in the current session whether the window is full screen. Gives the
    /// state to show; nothing where no session is current.
    pub fn note_fullscreen(&mut self, fullscreen: bool) -> (r: Option<PlayerStateSnapshot>)
        requires
            old(self).well_formed(),
        ensures
            final(self).well_formed(),
            match old(self)@.session {
                Some(id) => {
                    let before = old(self)@.sessions[id].shared;
                    let after = PlayerSharedView {
                        snapshot: PlayerStateSnapshotView { fullscreen, ..before.snapshot },
                        ..before
                    };
                    &&& final(self)@ == old(self)@.with_shared(id, after)
                    &&& r matches Some(snapshot)
                    &&& snapshot@ == after.snapshot
                },
                None => final(self)@ == old(self)@ && r is None,
            },
    {
        match self.session {
            Some(id) => match self.position(id) {
                Some(i) => {
                    let ghost before = self.sessions@;
                    self.sessions[i].shared.snapshot.fullscreen = fullscreen;
                    proof {
                        lemma_session_replaced(
                            before,
                            self.next_id,
                            i as int,
                            self.sessions@[i as int],
                        );
                        assert(self.sessions@ =~= before.update(i as int, self.sessions@[i as int]));
                        assert(forall|k: u64|
                            has_session(before, k) ==> self@.sessions.contains_key(k));
                    }
                    Some(self.sessions[i].shared.snapshot.clone())
                },
                None => None,
            },
            None => None,
        }
    }

    /// Ends a session. Gives what is to be done for it; nothing where it has ended
    /// already. `marks` are those of the duration that it shows.
    pub fn cleanup_session(&mut self, id: u64, marks: Option<WatchMarks>) -> (r: Option<SessionCleanup>)
        requires
            old(self).well_formed(),
        ensures
            final(self).well_formed(),
            if old(self)@.sessions.contains_key(id) && !old(self)@.sessions[id].terminated {
                let shared = old(self)@.sessions[id].shared;
                &&& final(self)@ == (PlayerManagerView {
                    sessions: old(self)@.sessions.insert(
                        id,
                        PlayerSessionView { terminated: true, shared },
                    ),
                    ..old(self)@
                })
                &&& r matches Some(cleanup)
                &&& view_update(cleanup.progress) == snapshot_progress(shared.snapshot, marks)
                &&& cleanup.command@ == quit_spec()
                &&& view_text(cleanup.video_id) == shared.snapshot.video_id
            } else {
                &&& final(self)@ == old(self)@
                &&& r is None
            },
    {
        match self.position(id) {
            Some(i) => {
                if self.sessions[i].terminated {
                    return None;
                }
                let ghost before = self.sessions@;
                self.sessions[i].terminated = true;
                proof {
                    lemma_session_replaced(before, self.next_id, i as int, self.sessions@[i as int]);
                    assert(self.sessions@ =~= before.update(i as int, self.sessions@[i as int]));
                    assert(forall|k: u64| has_session(before, k) ==> self@.sessions.contains_key(k));
                }
                let snapshot = &self.sessions[i].shared.snapshot;
                Some(
                    SessionCleanup {
                        progress: persist_snapshot(snapshot, marks),
                        command: quit_command(),
                        video_id: copy_text(&snapshot.video_id),
                    },
                )
            },
            None => None,
        }
    }

    /// Forgets a session that nobody holds any more. The current one is kept.
    pub fn forget(&mut self, id: u64)
        requires
            old(self).well_formed(),
        ensures
            final(self).well_formed(),
            final(self)@ == if old(self)@.session == Some(id) {
                old(self)@
            } else {
                PlayerManagerView { sessions: old(self)@.sessions.remove(id), ..old(self)@ }
            },
    {
        match self.session {
            Some(current) => {
                if current == id {
                    return;
                }
            },
            None => {},
        }
        match self.position(id) {
            Some(i) => {
                let ghost before = self.sessions@;
                self.sessions.remove(i);
                proof {
                    lemma_session_dropped(before, self.next_id, i as int);
                    assert(self.sessions@ =~= before.remove(i as int));
                    if let Some(current) = self.session {
                        assert(has_session(before, current));
                        assert(self@.sessions.contains_key(current));
                    }
                }
            },
            None => {
                assert(self@.sessions.remove(id) =~= self@.sessions);
            },
        }
    }
}

/// A manager is always consistent.
pub proof fn law_manager_is_consistent(manager: PlayerManager)
    requires
        manager.well_formed(),
    ensures
        manager@.consistent(),
{
    assert forall|id: u64| #[trigger] manager@.sessions.contains_key(id) implies id
        < manager@.begun by {
        let i = choose|i: int|
            0 <= i < manager.sessions@.len() && (#[trigger] manager.sessions@[i]).id == id;
        assert(manager.sessions@[i].id < manager.next_id);
    }
}

/// After a session was cleaned up it is not current and has ended, but what it shows
/// is still there for the messages that come; the other sessions are as they were.
pub proof fn law_cleanup_keeps_what_is_shown(
    before: PlayerManagerView,
    after: PlayerManagerView,
    id: u64,
)
    requires
        before.consistent(),
        before.sessions.contains_key(id),
        after == (PlayerManagerView {
            sessions: before.sessions.insert(
                id,
                PlayerSessionView { terminated: true, shared: before.sessions[id].shared },
            ),
            session: if before.session == Some(id) {
                None
            } else {
                before.session
            },
            ..before
        }),
    ensures
        after.consistent(),
        after.session != Some(id),
        after.sessions[id].terminated,
        after.sessions[id].shared == before.sessions[id].shared,
        before.session == Some(id) ==> after.shown() == idle_snapshot(),
        before.session != Some(id) ==> after.shown() == before.shown(),
        forall|other: u64|
            other != id && #[trigger] before.sessions.contains_key(other)
                ==> after.sessions.contains_key(other) && after.sessions[other]
                == before.sessions[other],
{
}

/// Forgetting a session changes nothing of what is shown, nor of the others.
pub proof fn law_forgetting_changes_nothing_shown(
    before: PlayerManagerView,
    after: PlayerManagerView,
    id: u64,
)
    requires
        before.consistent(),
        after == if before.session == Some(id) {
            before
        } else {
            PlayerManagerView { sessions: before.sessions.remove(id), ..before }
        },
    ensures
        after.consistent(),
        after.shown() == before.shown(),
        forall|other: u64|
            other != id && #[trigger] before.sessions.contains_key(other)
                ==> after.sessions.contains_key(other) && after.sessions[other]
                == before.sessions[other],
{
}

/// What is shown is the state of the current session, or that of a player in which
/// nothing is open; a change of another session is not shown.
pub proof fn law_current_session_is_shown(
    manager: PlayerManagerView,
    id: u64,
    other: u64,
    shared: PlayerSharedView,
)
    requires
        manager.sessions.contains_key(id),
        id != other,
    ensures
        manager.session == Some(id) ==> manager.shown() == manager.sessions[id].shared.snapshot
            && manager.with_shared(id, shared).shown() == shared.snapshot && manager.with_shared(
            other,
            shared,
        ).shown() == manager.shown(),
        manager.session is None ==> manager.shown() == idle_snapshot(),
        manager.with_shared(other, shared).sessions[id] == manager.sessions[id],
        manager.with_shared(id, shared).sessions[id].shared == shared,
        manager.with_shared(id, shared).sessions[id].terminated == manager.sessions[id].terminated,
        manager.with_shared(id, shared).session == manager.session,
        manager.with_shared(id, shared).surface_bounds == manager.surface_bounds,
        manager.with_shared(id, shared).begun == manager.begun,
{
}

}
