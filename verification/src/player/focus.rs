//! When the picture of a paused video is drawn anew.
use vstd::prelude::*;

verus! {

/// How long after one refresh the next may come, in milliseconds.
pub const REFRESH_COOLDOWN_MILLIS: u64 = 300;

/// How often the windows are looked at, in milliseconds.
pub const FOCUS_POLL_MILLIS: u64 = 75;

/// What was seen of the windows when they were last looked at.
#[derive(Debug, Clone, Copy, PartialEq, Eq, Structural)]
pub struct FocusWatch {
    pub had_focus: bool,
    pub host_was_visible: bool,
    pub refresh_pending: bool,
}

impl FocusWatch {
    /// A refresh is wanted: the main window came to the front, or the window of
    /// the video was shown again, now or since the last refresh.
    pub open spec fn wants_refresh(self, has_focus: bool, host_visible: Option<bool>) -> bool {
        ||| self.refresh_pending
        ||| has_focus && !self.had_focus
        ||| host_visible == Some(true) && !self.host_was_visible
    }

    /// A refresh is done: it is wanted, the main window is in front, and the last
    /// one is long enough ago.
    pub open spec fn refreshes(
        self,
        has_focus: bool,
        host_visible: Option<bool>,
        elapsed_millis: u64,
    ) -> bool {
        has_focus && self.wants_refresh(has_focus, host_visible) && elapsed_millis
            >= REFRESH_COOLDOWN_MILLIS
    }

    /// What is remembered after a look at the windows.
    pub open spec fn after(
        self,
        has_focus: bool,
        host_visible: Option<bool>,
        elapsed_millis: u64,
    ) -> FocusWatch {
        FocusWatch {
            had_focus: has_focus,
            host_was_visible: match host_visible {
                Some(visible) => visible,
                None => self.host_was_visible,
            },
            refresh_pending: self.wants_refresh(has_focus, host_visible) && !self.refreshes(
                has_focus,
                host_visible,
                elapsed_millis,
            ),
        }
    }

    /// A watch that begins with what is seen of the windows. The window of the
    /// video may be missing.
    pub fn begin(has_focus: bool, host_visible: Option<bool>) -> (r: FocusWatch)
        ensures
            r == (FocusWatch {
                had_focus: has_focus,
                host_was_visible: host_visible == Some(true),
                refresh_pending: false,
            }),
    {
        let host_was_visible = match host_visible {
            Some(visible) => visible,
            None => false,
        };
        FocusWatch { had_focus: has_focus, host_was_visible, refresh_pending: false }
    }

    /// Looks at the windows once; `elapsed_millis` is the time since the last
    /// refresh. Tells whether the picture is to be drawn anew now.
    pub fn look(&mut self, has_focus: bool, host_visible: Option<bool>, elapsed_millis: u64) -> (r:
        bool)
        ensures
            r == old(self).refreshes(has_focus, host_visible, elapsed_millis),
            *final(self) == old(self).after(has_focus, host_visible, elapsed_millis),
    {
        if has_focus && !self.had_focus {
            self.refresh_pending = true;
        }
        match host_visible {
            Some(visible) => {
                if visible && !self.host_was_visible {
                    self.refresh_pending = true;
                }
                self.host_was_visible = visible;
            },
            None => {},
        }
        let refresh = has_focus && self.refresh_pending && elapsed_millis
            >= REFRESH_COOLDOWN_MILLIS;
        if refresh {
            self.refresh_pending = false;
        }
        self.had_focus = has_focus;
        refresh
    }
}

/// What the watch does next.
#[derive(Debug, Clone, Copy, PartialEq, Eq, Structural)]
pub enum FocusStep {
    /// Wait, and look again.
    Wait,
    /// Draw the picture anew; then wait, and look again.
    Refresh,
    /// The session has ended, and the watch with it.
    End,
}

impl FocusWatch {
    /// Goes one step: a session that has ended is not looked at any more.
    pub fn step(
        &mut self,
        terminated: bool,
        has_focus: bool,
        host_visible: Option<bool>,
        elapsed_millis: u64,
    ) -> (r: FocusStep)
        ensures
            r == if terminated {
                FocusStep::End
            } else if old(self).refreshes(has_focus, host_visible, elapsed_millis) {
                FocusStep::Refresh
            } else {
                FocusStep::Wait
            },
            *final(self) == if terminated {
                *old(self)
            } else {
                old(self).after(has_focus, host_visible, elapsed_millis)
            },
    {
        if terminated {
            FocusStep::End
        } else if self.look(has_focus, host_visible, elapsed_millis) {
            FocusStep::Refresh
        } else {
            FocusStep::Wait
        }
    }
}

/// One look at the windows, at a moment of a clock.
pub struct Look {
    pub has_focus: bool,
    pub host_visible: Option<bool>,
    /// The time since the last refresh was done.
    pub elapsed_millis: u64,
    pub clock_millis: int,
}

/// What is remembered before the look with number `i` of a run.
pub open spec fn watch_before(watch: FocusWatch, looks: Seq<Look>, i: int) -> FocusWatch
    decreases i,
{
    if i <= 0 {
        watch
    } else {
        let look = looks[i - 1];
        watch_before(watch, looks, i - 1).after(
            look.has_focus,
            look.host_visible,
            look.elapsed_millis,
        )
    }
}

/// The look with number `i` of a run leads to a refresh.
pub open spec fn refreshed_at(watch: FocusWatch, looks: Seq<Look>, i: int) -> bool {
    watch_before(watch, looks, i).refreshes(
        looks[i].has_focus,
        looks[i].host_visible,
        looks[i].elapsed_millis,
    )
}

/// At the look with number `i` of a run the main window came back to the front, or
/// the window of the video was shown again.
pub open spec fn returned_at(watch: FocusWatch, looks: Seq<Look>, i: int) -> bool {
    let before = watch_before(watch, looks, i);
    ||| looks[i].has_focus && !before.had_focus
    ||| looks[i].host_visible == Some(true) && !before.host_was_visible
}

proof fn lemma_nothing_pending(watch: FocusWatch, looks: Seq<Look>, from: int, to: int)
    requires
        0 <= from <= to <= looks.len(),
        !watch_before(watch, looks, from).refresh_pending,
        forall|k: int| from <= k < to ==> !#[trigger] returned_at(watch, looks, k),
    ensures
        !watch_before(watch, looks, to).refresh_pending,
    decreases to - from,
{
    if from < to {
        lemma_nothing_pending(watch, looks, from, to - 1);
        assert(!returned_at(watch, looks, to - 1));
    }
}

/// Over a run of looks: the picture is drawn anew only with the main window in
/// front, and between any two refreshes, up to the later one, there is a look at
/// which that window came back or the window of the video was shown again. Where
/// the time since the last refresh is not overstated, they are apart by no less
/// than they have to be.
pub proof fn law_each_refresh_has_its_reason(watch: FocusWatch, looks: Seq<Look>, i: int, j: int)
    requires
        0 <= i < j < looks.len(),
        refreshed_at(watch, looks, i),
        refreshed_at(watch, looks, j),
    ensures
        looks[j].has_focus,
        looks[j].elapsed_millis <= looks[j].clock_millis - looks[i].clock_millis
            ==> looks[j].clock_millis - looks[i].clock_millis >= REFRESH_COOLDOWN_MILLIS,
        exists|k: int| i < k <= j && #[trigger] returned_at(watch, looks, k),
{
    if forall|k: int| i < k <= j ==> !#[trigger] returned_at(watch, looks, k) {
        assert(!watch_before(watch, looks, i + 1).refresh_pending);
        lemma_nothing_pending(watch, looks, i + 1, j);
        assert(!returned_at(watch, looks, j));
    }
}

/// In a run that begins with nothing pending, the first refresh too comes after
/// such a look.
pub proof fn law_first_refresh_has_its_reason(watch: FocusWatch, looks: Seq<Look>, j: int)
    requires
        !watch.refresh_pending,
        0 <= j < looks.len(),
        refreshed_at(watch, looks, j),
    ensures
        exists|k: int| 0 <= k <= j && #[trigger] returned_at(watch, looks, k),
{
    if forall|k: int| 0 <= k <= j ==> !#[trigger] returned_at(watch, looks, k) {
        lemma_nothing_pending(watch, looks, 0, j);
        assert(!returned_at(watch, looks, j));
    }
}

/// A refresh that is wanted and not done stays wanted, and is done as soon as the
/// main window is in front and the last one is long enough ago.
pub proof fn law_refresh_is_not_lost(
    watch: FocusWatch,
    has_focus: bool,
    host_visible: Option<bool>,
    elapsed_millis: u64,
    later_visible: Option<bool>,
    later_millis: u64,
)
    requires
        watch.wants_refresh(has_focus, host_visible),
        !watch.refreshes(has_focus, host_visible, elapsed_millis),
        later_millis >= REFRESH_COOLDOWN_MILLIS,
    ensures
        watch.after(has_focus, host_visible, elapsed_millis).refreshes(
            true,
            later_visible,
            later_millis,
        ),
{
}

/// While nothing changes about the windows nothing is refreshed, and no refresh
/// comes sooner after another than it may.
pub proof fn law_refresh_is_bounded(
    watch: FocusWatch,
    has_focus: bool,
    host_visible: Option<bool>,
    elapsed_millis: u64,
)
    ensures
        elapsed_millis < REFRESH_COOLDOWN_MILLIS ==> !watch.refreshes(
            has_focus,
            host_visible,
            elapsed_millis,
        ),
        !watch.refresh_pending && has_focus == watch.had_focus && (host_visible is None
            || host_visible == Some(watch.host_was_visible)) ==> !watch.refreshes(
            has_focus,
            host_visible,
            elapsed_millis,
        ) && watch.after(has_focus, host_visible, elapsed_millis) == watch,
{
}

/// The picture is drawn anew at a look exactly if the main window is in front, three
/// tenths of a second have passed, and a refresh was pending or the window came back or
/// the window of the video was shown again.
pub proof fn law_when_the_picture_is_drawn_anew(
    watch: FocusWatch,
    has_focus: bool,
    host_visible: Option<bool>,
    elapsed_millis: u64,
)
    ensures
        watch.refreshes(has_focus, host_visible, elapsed_millis) <==> {
            &&& has_focus
            &&& elapsed_millis >= 300
            &&& watch.refresh_pending || !watch.had_focus || (host_visible == Some(true)
                && !watch.host_was_visible)
        },
        watch.after(has_focus, host_visible, elapsed_millis).had_focus == has_focus,
        host_visible matches Some(visible) ==> watch.after(
            has_focus,
            host_visible,
            elapsed_millis,
        ).host_was_visible == visible,
        host_visible is None ==> watch.after(
            has_focus,
            host_visible,
            elapsed_millis,
        ).host_was_visible == watch.host_was_visible,
        watch.refreshes(has_focus, host_visible, elapsed_millis) ==> !watch.after(
            has_focus,
            host_visible,
            elapsed_millis,
        ).refresh_pending,
{
}

/// The main window came back at the first look exactly if it is in front and was not,
/// and so with the window of the video and its being shown.
pub proof fn law_when_a_window_came_back(watch: FocusWatch, looks: Seq<Look>)
    requires
        looks.len() > 0,
    ensures
        !looks[0].has_focus && looks[0].host_visible != Some(true) ==> !returned_at(
            watch,
            looks,
            0,
        ),
        watch.had_focus && watch.host_was_visible ==> !returned_at(watch, looks, 0),
        looks[0].has_focus && !watch.had_focus ==> returned_at(watch, looks, 0),
        looks[0].host_visible == Some(true) && !watch.host_was_visible ==> returned_at(
            watch,
            looks,
            0,
        ),
        watch.had_focus && looks[0].host_visible != Some(true) ==> !returned_at(watch, looks, 0),
        watch.host_was_visible && !looks[0].has_focus ==> !returned_at(watch, looks, 0),
{
}

}
