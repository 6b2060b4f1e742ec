use crate::animation::{AnimFrom, Endpoint};
use crate::message::{
    notification_border, notification_spans, notification_text, paths_equal, same_path, spans_view,
    NotificationText,
};
use crate::scale_cache::ScaleCache;
use vstd::prelude::*;

verus! {

/// Space between the text and the border, in logical pixels; the fully shown
/// notification also rests twice this far below the top edge.
pub const PADDING: i32 = 8;

/// Border width, in logical pixels.
pub const BORDER: i32 = 4;

/// The largest `std::time::Duration`, in nanoseconds.
pub const MAX_DURATION_NANOS: u128 = 18_446_744_073_709_551_615_999_999_999;

/// How long a fully shown "created config" notification stays up.
pub const CREATED_SHOWN_NANOS: u128 = 8_000_000_000;

/// How long a fully shown "failed to parse" notification stays up.
pub const FAILED_SHOWN_NANOS: u128 = 4_000_000_000;

/// How long the notification stays fully shown before it starts hiding.
///
/// The "created" notification stays longer: it comes with a monitor modeset
/// and a hotkey overlay that divert the attention.
pub open spec fn shown_nanos(created: bool) -> u128 {
    if created {
        CREATED_SHOWN_NANOS
    } else {
        FAILED_SHOWN_NANOS
    }
}

/// Where the notification is in its show/hide cycle; `A` is the animation.
pub enum NotificationState<A> {
    Hidden,
    /// Sliding in.
    Showing(A),
    /// Fully shown until the deadline (nanoseconds on the unadjusted clock).
    Shown(u128),
    /// Sliding out.
    Hiding(A),
}

/// The state after one step of the show/hide cycle at time `now`.
///
/// `done`/`clamped_done` are what the running animation reports; `created`
/// tells a "created config" notification; `hide_anim` is the slide-out that
/// starts when the shown deadline has come.
pub open spec fn advanced<A>(
    s: NotificationState<A>,
    now: u128,
    done: bool,
    clamped_done: bool,
    created: bool,
    hide_anim: A,
) -> NotificationState<A> {
    match s {
        NotificationState::Hidden => s,
        NotificationState::Showing(_) => if done {
            NotificationState::Shown((now + shown_nanos(created)) as u128)
        } else {
            s
        },
        NotificationState::Shown(deadline) => if now >= deadline {
            NotificationState::Hiding(hide_anim)
        } else {
            s
        },
        NotificationState::Hiding(_) => if clamped_done {
            NotificationState::Hidden
        } else {
            s
        },
    }
}

/// The state after starting to slide out with `anim`: a hidden
/// notification stays hidden.
pub open spec fn dismissed<A>(s: NotificationState<A>, anim: A) -> NotificationState<A> {
    match s {
        NotificationState::Hidden => s,
        _ => NotificationState::Hiding(anim),
    }
}

/// What to draw for a visible notification.
pub enum NotificationFrame<'a, A, B> {
    /// Sliding in or out: the position follows the animation.
    Sliding { anim: &'a A, buffer: &'a B },
    /// Fully shown: at rest below the top edge.
    Resting { buffer: &'a B },
}

/// A notification at the top of the screen that says that the config failed
/// to parse, or that a default config file was created.
///
/// `A` is the slide animation and `B` a rendered texture; the cache holds
/// one texture (or failed attempt) per output scale.
pub struct ConfigErrorNotification<A, B> {
    state: NotificationState<A>,
    buffers: ScaleCache<B>,
    // If set, this is a "Created config at {path}" notification. If unset,
    // this is a config error notification.
    created_path: Option<String>,
}

/// The created path as a sequence of characters.
pub open spec fn path_view(p: Option<String>) -> Option<Seq<char>> {
    match p {
        Some(s) => Some(s@),
        None => None,
    }
}

impl<A, B> ConfigErrorNotification<A, B> {
    /// The current state.
    pub closed spec fn state(&self) -> NotificationState<A> {
        self.state
    }

    /// The cached renders, by scale key.
    pub closed spec fn buffers(&self) -> Map<u64, Option<B>> {
        self.buffers@
    }

    /// The path named by a "created config" notification; `None` for a
    /// "failed to parse" one.
    pub closed spec fn created_path(&self) -> Option<Seq<char>> {
        path_view(self.created_path)
    }

    pub open spec fn is_hidden(&self) -> bool {
        self.state() is Hidden
    }

    /// A hidden notification with no message text and nothing rendered.
    pub fn new() -> (n: Self)
        ensures
            n.state() is Hidden,
            n.created_path() is None,
            n.buffers() == Map::<u64, Option<B>>::empty(),
    {
        ConfigErrorNotification {
            state: NotificationState::Hidden,
            buffers: ScaleCache::new(),
            created_path: None,
        }
    }

    /// Shows the "created a default config at `created_path`" notification,
    /// restarting the slide-in from the top.
    ///
    /// Cached renders are dropped when the path differs from the one shown
    /// before; for the same path they are kept, along with the stored text.
    pub fn show_created<F>(&mut self, created_path: &str, make_anim: F)
        where
            F: FnOnce(AnimFrom<A>, Endpoint) -> A,
        requires
            call_requires(make_anim, (AnimFrom::Rest(Endpoint::Zero), Endpoint::One)),
        ensures
            ({
                let same = old(self).created_path() matches Some(p) && paths_equal(p, created_path@);
                &&& same ==> final(self).created_path() == old(self).created_path()
                    && final(self).buffers() == old(self).buffers()
                &&& !same ==> final(self).created_path() == Some(created_path@)
                    && final(self).buffers() == Map::<u64, Option<B>>::empty()
            }),
            old(self).created_path() == Some(created_path@) ==> final(self).buffers() == old(
                self,
            ).buffers(),
            final(self).state() is Showing,
            call_ensures(
                make_anim,
                (AnimFrom::Rest(Endpoint::Zero), Endpoint::One),
                final(self).state()->Showing_0,
            ),
    {
        let same = match &self.created_path {
            Some(p) => same_path(p.as_str(), created_path),
            None => false,
        };
        if !same {
            self.created_path = Some(created_path.to_owned());
            self.buffers.clear();
        }
        let anim = make_anim(AnimFrom::Rest(Endpoint::Zero), Endpoint::One);
        self.state = NotificationState::Showing(anim);
    }

    /// Shows the "failed to parse the config" notification, unless the
    /// config disables it (`disable_failed`).
    ///
    /// Shows from scratch even if already showing, to bring attention.
    /// Switching from a "created" notification drops the cached renders.
    pub fn show<F>(&mut self, disable_failed: bool, make_anim: F)
        where
            F: FnOnce(AnimFrom<A>, Endpoint) -> A,
        requires
            call_requires(make_anim, (AnimFrom::Rest(Endpoint::Zero), Endpoint::One)),
        ensures
            disable_failed ==> final(self).state() == old(self).state()
                && final(self).created_path() == old(self).created_path()
                && final(self).buffers() == old(self).buffers(),
            !disable_failed ==> {
                &&& final(self).created_path() is None
                &&& old(self).created_path() is Some ==> final(self).buffers() == Map::<
                    u64,
                    Option<B>,
                >::empty()
                &&& old(self).created_path() is None ==> final(self).buffers()
                    == old(self).buffers()
                &&& final(self).state() is Showing
                &&& call_ensures(
                    make_anim,
                    (AnimFrom::Rest(Endpoint::Zero), Endpoint::One),
                    final(self).state()->Showing_0,
                )
            },
    {
        if disable_failed {
            return;
        }
        if self.created_path.is_some() {
            self.created_path = None;
            self.buffers.clear();
        }
        let anim = make_anim(AnimFrom::Rest(Endpoint::Zero), Endpoint::One);
        self.state = NotificationState::Showing(anim);
    }

    /// Starts sliding the notification out, unless it is hidden already.
    ///
    /// A notification that is already sliding out starts over from fully shown.
    pub fn dismiss<F>(&mut self, make_anim: F)
        where
            F: FnOnce(AnimFrom<A>, Endpoint) -> A,
        requires
            call_requires(make_anim, (AnimFrom::Rest(Endpoint::One), Endpoint::Zero)),
        ensures
            final(self).created_path() == old(self).created_path(),
            final(self).buffers() == old(self).buffers(),
            final(self).state() == dismissed(old(self).state(), final(self).state()->Hiding_0),
            !old(self).is_hidden() ==> call_ensures(
                make_anim,
                (AnimFrom::Rest(Endpoint::One), Endpoint::Zero),
                final(self).state()->Hiding_0,
            ),
    {
        if let NotificationState::Hidden = self.state {
            return;
        }
        let anim = make_anim(AnimFrom::Rest(Endpoint::One), Endpoint::Zero);
        self.state = NotificationState::Hiding(anim);
    }

    /// Steps the show/hide cycle at time `now_ns` (nanoseconds on the
    /// unadjusted clock).
    ///
    /// `anim_done` and `anim_clamped_done` say whether the running animation
    /// (if any) is done, and done when clamped to its end.
    /// A finished slide-in becomes fully shown until `now_ns` plus the shown
    /// duration; once that deadline has come the notification starts sliding
    /// out; a slide-out that is done when clamped hides it.
    pub fn advance_animations<F>(
        &mut self,
        now_ns: u128,
        anim_done: bool,
        anim_clamped_done: bool,
        make_anim: F,
    )
        where
            F: FnOnce(AnimFrom<A>, Endpoint) -> A,
        requires
            old(self).state() is Showing && anim_done ==> now_ns + shown_nanos(
                old(self).created_path() is Some,
            ) <= MAX_DURATION_NANOS,
            call_requires(make_anim, (AnimFrom::Rest(Endpoint::One), Endpoint::Zero)),
        ensures
            final(self).created_path() == old(self).created_path(),
            final(self).buffers() == old(self).buffers(),
            final(self).state() == advanced(
                old(self).state(),
                now_ns,
                anim_done,
                anim_clamped_done,
                old(self).created_path() is Some,
                final(self).state()->Hiding_0,
            ),
            (old(self).state() is Shown && final(self).state() is Hiding) ==> call_ensures(
                make_anim,
                (AnimFrom::Rest(Endpoint::One), Endpoint::Zero),
                final(self).state()->Hiding_0,
            ),
    {
        match self.state {
            NotificationState::Hidden => {},
            NotificationState::Showing(_) => {
                if anim_done {
                    let duration = self.shown_duration();
                    self.state = NotificationState::Shown(now_ns + duration);
                }
            },
            NotificationState::Shown(deadline) => {
                if now_ns >= deadline {
                    self.dismiss(make_anim);
                }
            },
            NotificationState::Hiding(_) => {
                if anim_clamped_done {
                    self.state = NotificationState::Hidden;
                }
            },
        }
    }

    /// Whether the notification is sliding in.
    pub fn is_showing(&self) -> (r: bool)
        ensures
            r == (self.state() is Showing),
    {
        match self.state {
            NotificationState::Showing(_) => true,
            _ => false,
        }
    }

    /// The running slide animation, if the notification is sliding in or out.
    pub fn animation(&self) -> (r: Option<&A>)
        ensures
            match self.state() {
                NotificationState::Showing(a) | NotificationState::Hiding(a) => r == Some(&a),
                _ => r is None,
            },
    {
        match &self.state {
            NotificationState::Showing(anim) | NotificationState::Hiding(anim) => Some(anim),
            _ => None,
        }
    }

    /// How long this notification stays fully shown, in nanoseconds.
    pub fn shown_duration(&self) -> (r: u128)
        ensures
            r == shown_nanos(self.created_path() is Some),
    {
        if self.created_path.is_some() {
            CREATED_SHOWN_NANOS
        } else {
            FAILED_SHOWN_NANOS
        }
    }

    /// Whether the notification is anywhere but hidden (and so needs redraws).
    pub fn are_animations_ongoing(&self) -> (r: bool)
        ensures
            r == !self.is_hidden(),
    {
        match self.state {
            NotificationState::Hidden => false,
            _ => true,
        }
    }

    /// Gets what to draw on an output whose scale has the key `scale_key`.
    ///
    /// Nothing is drawn while hidden. Otherwise the text is rendered with
    /// `draw` at the scale of `scale_key` unless a result for this scale is
    /// cached; a failed render is cached too, and then nothing is drawn.
    pub fn render<F>(&mut self, scale_key: u64, draw: F) -> (r: Option<NotificationFrame<'_, A, B>>)
        where
            F: FnOnce(u64, NotificationText) -> Option<B>,
        requires
            forall|t: NotificationText| call_requires(draw, (scale_key, t)),
        ensures
            final(self).state() == old(self).state(),
            final(self).created_path() == old(self).created_path(),
            old(self).is_hidden() ==> {
                &&& r is None
                &&& final(self).buffers() == old(self).buffers()
            },
            !old(self).is_hidden() ==> {
                &&& final(self).buffers().contains_key(scale_key)
                &&& old(self).buffers().contains_key(scale_key) ==> final(self).buffers() == old(
                    self,
                ).buffers()
                &&& !old(self).buffers().contains_key(scale_key) ==> {
                    &&& final(self).buffers() == old(self).buffers().insert(
                        scale_key,
                        final(self).buffers()[scale_key],
                    )
                    &&& drawn_from(
                        draw,
                        scale_key,
                        old(self).created_path(),
                        final(self).buffers()[scale_key],
                    )
                }
                &&& match final(self).buffers()[scale_key] {
                    None => r is None,
                    Some(b) => match old(self).state() {
                        NotificationState::Showing(a) | NotificationState::Hiding(a) => r matches Some(
                            NotificationFrame::Sliding { anim, buffer },
                        ) && *anim == a && *buffer == b,
                        _ => r matches Some(NotificationFrame::Resting { buffer }) && *buffer == b,
                    },
                }
            },
    {
        if let NotificationState::Hidden = self.state {
            return None;
        }
        if !self.buffers.contains(scale_key) {
            let path = match &self.created_path {
                Some(p) => Some(p.as_str()),
                None => None,
            };
            let text = notification_text(path);
            let rendered = draw(scale_key, text);
            self.buffers.insert(scale_key, rendered);
        }
        let buffer = match self.buffers.get(scale_key) {
            Some(Some(b)) => b,
            _ => return None,
        };
        match &self.state {
            NotificationState::Showing(anim) | NotificationState::Hiding(anim) => Some(
                NotificationFrame::Sliding { anim, buffer },
            ),
            _ => Some(NotificationFrame::Resting { buffer }),
        }
    }
}

/// `entry` is what `draw` returned, asked for the scale of `scale_key`, for
/// the notification text of a notification whose created path is `path`.
pub open spec fn drawn_from<F: FnOnce(u64, NotificationText) -> Option<B>, B>(
    draw: F,
    scale_key: u64,
    path: Option<Seq<char>>,
    entry: Option<B>,
) -> bool {
    exists|t: NotificationText|
        #![trigger call_ensures(draw, (scale_key, t), entry)]
        call_ensures(draw, (scale_key, t), entry) && spans_view(t.spans@) == notification_spans(path)
            && t.border_color == notification_border(path is Some)
}

/// A hidden notification stays hidden whatever the clock says and whatever
/// the animation reports.
pub proof fn lemma_hidden_stays_hidden<A>(
    now: u128,
    done: bool,
    clamped_done: bool,
    created: bool,
    hide_anim: A,
)
    ensures
        advanced(NotificationState::Hidden, now, done, clamped_done, created, hide_anim)
            is Hidden,
{
}

/// Stepping never starts a slide-in; only showing does.
pub proof fn lemma_step_never_starts_showing<A>(
    s: NotificationState<A>,
    now: u128,
    done: bool,
    clamped_done: bool,
    created: bool,
    hide_anim: A,
)
    ensures
        advanced(s, now, done, clamped_done, created, hide_anim) is Showing ==> advanced(
            s,
            now,
            done,
            clamped_done,
            created,
            hide_anim,
        ) == s,
{
}

/// The whole cycle after showing: a slide-in that is done at `t` leaves the
/// notification fully shown until `t` plus its shown duration (8 s for a
/// "created" notification, 4 s otherwise); from then on it slides out, and
/// once the slide-out is done when clamped it is hidden.
pub proof fn lemma_shown_for_its_duration<A>(
    anim: A,
    t: u128,
    later: u128,
    created: bool,
    done: bool,
    clamped_done: bool,
    hide_anim: A,
)
    requires
        t + shown_nanos(created) <= MAX_DURATION_NANOS,
    ensures
        ({
            let shown = advanced(NotificationState::Showing(anim), t, true, clamped_done, created, hide_anim);
            let deadline = t + shown_nanos(created);
            &&& shown == NotificationState::<A>::Shown(deadline as u128)
            &&& later < deadline ==> advanced(shown, later, done, clamped_done, created, hide_anim)
                == shown
            &&& later >= deadline ==> advanced(shown, later, done, clamped_done, created, hide_anim)
                == NotificationState::Hiding(hide_anim)
            &&& advanced(NotificationState::Hiding(hide_anim), later, done, true, created, anim) is Hidden
        }),
{
}

/// Dismissing leaves a hidden notification hidden and starts sliding out
/// any other one.
pub proof fn lemma_dismiss<A>(s: NotificationState<A>, anim: A)
    ensures
        s is Hidden ==> dismissed(s, anim) is Hidden,
        !(s is Hidden) ==> dismissed(s, anim) == NotificationState::Hiding(anim),
{
}

/// One call of `advance_animations`: the clock's time and what the running
/// animation reports.
pub struct Step {
    pub now: u128,
    pub done: bool,
    pub clamped_done: bool,
}

/// The state after the calls `steps`, in order, starting from `s`
/// (`created` and the slide-out `hide_anim` as in `advanced`).
pub open spec fn run<A>(
    s: NotificationState<A>,
    steps: Seq<Step>,
    created: bool,
    hide_anim: A,
) -> NotificationState<A>
    decreases steps.len(),
{
    if steps.len() == 0 {
        s
    } else {
        run(
            advanced(s, steps[0].now, steps[0].done, steps[0].clamped_done, created, hide_anim),
            steps.drop_first(),
            created,
            hide_anim,
        )
    }
}

/// The clock never goes back during `steps`.
pub open spec fn clock_monotonic(steps: Seq<Step>) -> bool {
    forall|i: int, j: int| 0 <= i <= j < steps.len() ==> steps[i].now <= steps[j].now
}

/// Animations are done once the clock passes their end: the slide-in is
/// done at every call at or after `show_end`, the slide-out done (clamped)
/// at every call at or after `hide_end`.
pub open spec fn animations_end(steps: Seq<Step>, show_end: u128, hide_end: u128) -> bool {
    &&& forall|i: int| 0 <= i < steps.len() && steps[i].now >= show_end ==> #[trigger] steps[i].done
    &&& forall|i: int|
        0 <= i < steps.len() && steps[i].now >= hide_end ==> #[trigger] steps[i].clamped_done
}

proof fn lemma_run_hidden<A>(steps: Seq<Step>, created: bool, hide_anim: A)
    ensures
        run(NotificationState::Hidden, steps, created, hide_anim) is Hidden,
    decreases steps.len(),
{
    if steps.len() > 0 {
        lemma_run_hidden(steps.drop_first(), created, hide_anim);
    }
}

proof fn lemma_run_hiding<A>(h: A, steps: Seq<Step>, l: int, created: bool, hide_anim: A)
    requires
        0 <= l < steps.len(),
        steps[l].clamped_done,
    ensures
        run(NotificationState::Hiding(h), steps, created, hide_anim) is Hidden,
    decreases steps.len(),
{
    if steps[0].clamped_done {
        lemma_run_hidden(steps.drop_first(), created, hide_anim);
    } else {
        lemma_run_hiding(h, steps.drop_first(), l - 1, created, hide_anim);
    }
}

proof fn lemma_run_shown<A>(
    deadline: u128,
    steps: Seq<Step>,
    j: int,
    l: int,
    created: bool,
    hide_anim: A,
)
    requires
        0 <= j < l < steps.len(),
        steps[j].now >= deadline,
        steps[l].clamped_done,
    ensures
        run(NotificationState::Shown(deadline), steps, created, hide_anim) is Hidden,
    decreases steps.len(),
{
    if steps[0].now >= deadline {
        lemma_run_hiding(hide_anim, steps.drop_first(), l - 1, created, hide_anim);
    } else {
        lemma_run_shown(deadline, steps.drop_first(), j - 1, l - 1, created, hide_anim);
    }
}

proof fn lemma_run_showing<A>(
    anim: A,
    steps: Seq<Step>,
    show_end: u128,
    i: int,
    j: int,
    l: int,
    created: bool,
    hide_anim: A,
)
    requires
        clock_monotonic(steps),
        forall|k: int| 0 <= k < steps.len() ==> #[trigger] steps[k].now + shown_nanos(created)
            <= MAX_DURATION_NANOS,
        forall|k: int| 0 <= k < steps.len() && steps[k].now >= show_end ==> #[trigger] steps[k].done,
        0 <= i < j < l < steps.len(),
        steps[i].now >= show_end,
        steps[j].now >= steps[i].now + shown_nanos(created),
        steps[l].clamped_done,
    ensures
        run(NotificationState::Showing(anim), steps, created, hide_anim) is Hidden,
    decreases steps.len(),
{
    let rest = steps.drop_first();
    if steps[0].done {
        assert(steps[0].now <= steps[i].now);
        lemma_run_shown(
            (steps[0].now + shown_nanos(created)) as u128,
            rest,
            j - 1,
            l - 1,
            created,
            hide_anim,
        );
    } else {
        assert(i != 0);
        assert forall|a: int, b: int| 0 <= a <= b < rest.len() implies rest[a].now <= rest[b].now by {
            assert(rest[a] == steps[a + 1] && rest[b] == steps[b + 1]);
        }
        assert forall|k: int| 0 <= k < rest.len() implies #[trigger] rest[k].now + shown_nanos(created)
            <= MAX_DURATION_NANOS by {
            assert(rest[k] == steps[k + 1]);
        }
        assert forall|k: int| 0 <= k < rest.len() && rest[k].now >= show_end implies #[trigger] rest[k].done by {
            assert(rest[k] == steps[k + 1]);
        }
        lemma_run_showing(anim, rest, show_end, i - 1, j - 1, l - 1, created, hide_anim);
    }
}

/// A shown notification is eventually hidden when nothing else happens to
/// it: starting from the slide-in that `show`/`show_created` begin, with a
/// clock that never goes back, and animations done once the clock passes
/// their ends, the state is hidden after any run of `advance_animations`
/// calls that lasts long enough: one call at or after the slide-in's end
/// (`i`), a later one at least the shown duration after it (`j`), and a
/// later one at or after the slide-out's end (`l`).
pub proof fn lemma_eventually_hidden<A>(
    anim: A,
    steps: Seq<Step>,
    show_end: u128,
    hide_end: u128,
    i: int,
    j: int,
    l: int,
    created: bool,
    hide_anim: A,
)
    requires
        clock_monotonic(steps),
        animations_end(steps, show_end, hide_end),
        forall|k: int| 0 <= k < steps.len() ==> #[trigger] steps[k].now + shown_nanos(created)
            <= MAX_DURATION_NANOS,
        0 <= i < j < l < steps.len(),
        steps[i].now >= show_end,
        steps[j].now >= steps[i].now + shown_nanos(created),
        steps[l].now >= hide_end,
    ensures
        run(NotificationState::Showing(anim), steps, created, hide_anim) is Hidden,
{
    assert(steps[l].clamped_done);
    lemma_run_showing(anim, steps, show_end, i, j, l, created, hide_anim);
}

/// A sliding-in notification keeps its slide-in until the animation is
/// done, whatever else the step reports; once done it is fully shown until
/// the step's time plus 8 s for a "created config" notification, 4 s
/// otherwise.
pub proof fn lemma_slide_in_waits_until_done<A>(
    anim: A,
    now: u128,
    clamped_done: bool,
    created: bool,
    hide_anim: A,
)
    requires
        now + 8_000_000_000 <= MAX_DURATION_NANOS,
    ensures
        advanced(NotificationState::Showing(anim), now, false, clamped_done, created, hide_anim)
            == NotificationState::Showing(anim),
        created ==> advanced(NotificationState::Showing(anim), now, true, clamped_done, created, hide_anim)
            == NotificationState::<A>::Shown((now + 8_000_000_000) as u128),
        !created ==> advanced(NotificationState::Showing(anim), now, true, clamped_done, created, hide_anim)
            == NotificationState::<A>::Shown((now + 4_000_000_000) as u128),
{
}

/// A fully shown notification stays so, whatever the animation reports,
/// until its deadline; from the deadline on, a step starts the slide-out
/// with the given animation.
pub proof fn lemma_shown_until_deadline<A>(
    deadline: u128,
    now: u128,
    done: bool,
    clamped_done: bool,
    created: bool,
    hide_anim: A,
)
    ensures
        now < deadline ==> advanced(NotificationState::Shown(deadline), now, done, clamped_done, created, hide_anim)
            == NotificationState::<A>::Shown(deadline),
        now >= deadline ==> advanced(NotificationState::Shown(deadline), now, done, clamped_done, created, hide_anim)
            == NotificationState::Hiding(hide_anim),
{
}

/// A sliding-out notification keeps its running slide-out, whatever the
/// clock and the other report say, until that animation is done when
/// clamped; then it is hidden.
pub proof fn lemma_slide_out_waits_until_clamped_done<A>(
    anim: A,
    now: u128,
    done: bool,
    created: bool,
    hide_anim: A,
)
    ensures
        advanced(NotificationState::Hiding(anim), now, done, false, created, hide_anim)
            == NotificationState::Hiding(anim),
        advanced(NotificationState::Hiding(anim), now, done, true, created, hide_anim)
            == NotificationState::<A>::Hidden,
{
}

/// Dismissing a hidden notification leaves it hidden; in every other state
/// it replaces the state with a slide-out running the given animation.
pub proof fn lemma_dismiss_by_state<A>(anim: A, other: A, deadline: u128)
    ensures
        dismissed(NotificationState::<A>::Hidden, anim) == NotificationState::<A>::Hidden,
        dismissed(NotificationState::Showing(other), anim) == NotificationState::Hiding(anim),
        dismissed(NotificationState::<A>::Shown(deadline), anim) == NotificationState::Hiding(anim),
        dismissed(NotificationState::Hiding(other), anim) == NotificationState::Hiding(anim),
{
}

/// The shown durations: 8 s for a "created config" notification, 4 s for a
/// "failed to parse" one.
pub proof fn lemma_shown_durations()
    ensures
        shown_nanos(true) == 8_000_000_000,
        shown_nanos(false) == 4_000_000_000,
{
}

} // verus!
