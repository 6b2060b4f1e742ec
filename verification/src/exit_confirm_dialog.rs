use crate::animation::{AnimFrom, Endpoint};
use crate::message::{exit_dialog_spans, exit_dialog_text, spans_view, Span};
use crate::scale_cache::ScaleCache;
use vstd::prelude::*;

verus! {

/// Space between the text and the border, in logical pixels.
pub const PADDING: i32 = 16;

/// Border width, in logical pixels.
pub const BORDER: i32 = 8;

/// The scale key of scale 1 (the bits of `1.0_f64`): the render at this
/// scale is the fallback for scales whose own render failed.
pub const FALLBACK_SCALE_KEY: u64 = 0x3FF0_0000_0000_0000;

/// Where the dialog is in its open/close cycle; `A` is the animation.
pub enum DialogState<A> {
    Hidden,
    /// Opening.
    Showing(A),
    /// Fully open.
    Visible,
    /// Closing.
    Hiding(A),
}

/// Whether the dialog counts as open: opening or fully open.
pub open spec fn is_open_state<A>(s: DialogState<A>) -> bool {
    s is Showing || s is Visible
}

/// Where an animation that replaces the current state starts: at 0 when
/// hidden, at 1 when fully open, else at the running animation's value.
pub open spec fn anim_from<A>(s: DialogState<A>) -> AnimFrom<A> {
    match s {
        DialogState::Hidden => AnimFrom::Rest(Endpoint::Zero),
        DialogState::Visible => AnimFrom::Rest(Endpoint::One),
        DialogState::Showing(a) | DialogState::Hiding(a) => AnimFrom::Current(a),
    }
}

/// The state after asking to open with `anim`: nothing happens when the
/// dialog cannot be shown or is open already.
pub open spec fn shown<A>(s: DialogState<A>, can_show: bool, anim: A) -> DialogState<A> {
    if can_show && !is_open_state(s) {
        DialogState::Showing(anim)
    } else {
        s
    }
}

/// The state after asking to close with `anim`: nothing happens unless open.
pub open spec fn dismissed<A>(s: DialogState<A>, anim: A) -> DialogState<A> {
    if is_open_state(s) {
        DialogState::Hiding(anim)
    } else {
        s
    }
}

/// The state after one animation step, given what the running animation
/// reports (`done`, `clamped_done`).
pub open spec fn advanced<A>(s: DialogState<A>, done: bool, clamped_done: bool) -> DialogState<A> {
    match s {
        DialogState::Showing(_) => if done {
            DialogState::Visible
        } else {
            s
        },
        DialogState::Hiding(_) => if clamped_done {
            DialogState::Hidden
        } else {
            s
        },
        _ => s,
    }
}

/// `entry` is what `draw` returned, asked for the scale of `scale_key`, for
/// the dialog's text.
pub open spec fn drawn_dialog<F: FnOnce(u64, Vec<Span>) -> Option<B>, B>(
    draw: F,
    scale_key: u64,
    entry: Option<B>,
) -> bool {
    exists|t: Vec<Span>|
        #![trigger call_ensures(draw, (scale_key, t), entry)]
        call_ensures(draw, (scale_key, t), entry) && spans_view(t@) == exit_dialog_spans()
}

/// What to draw for a dialog that is not hidden.
pub enum DialogFrame<'a, A, B> {
    /// Opening or closing: opacity and zoom follow the animation.
    Animating { anim: &'a A, buffer: &'a B },
    /// Fully open.
    Visible { buffer: &'a B },
}

/// The "are you sure you want to exit?" dialog in the middle of the screen.
///
/// `A` is the open/close animation and `B` a rendered texture. The render at
/// scale 1 is made up front; it decides whether the dialog can be shown at
/// all and stands in for any scale whose own render failed.
pub struct ExitConfirmDialog<A, B> {
    state: DialogState<A>,
    // The scale-1 render; never replaced.
    fallback: Option<B>,
    // Renders at other scales (an entry at the scale-1 key is never used).
    buffers: ScaleCache<B>,
}

impl<A, B> ExitConfirmDialog<A, B> {
    /// The current state.
    pub closed spec fn state(&self) -> DialogState<A> {
        self.state
    }

    /// The cached renders, by scale key.
    pub closed spec fn buffers(&self) -> Map<u64, Option<B>> {
        self.buffers@.insert(FALLBACK_SCALE_KEY, self.fallback)
    }

    /// The scale-1 render, which every dialog has (failed or not).
    pub closed spec fn fallback(&self) -> Option<B> {
        self.fallback
    }

    /// The scale-1 render is always among the cached renders.
    pub proof fn lemma_fallback_is_cached(&self)
        ensures
            self.buffers().contains_key(FALLBACK_SCALE_KEY),
            self.buffers()[FALLBACK_SCALE_KEY] == self.fallback(),
    {
    }

    pub open spec fn spec_can_show(&self) -> bool {
        self.fallback() is Some
    }

    pub open spec fn spec_is_open(&self) -> bool {
        is_open_state(self.state())
    }

    /// A hidden dialog whose scale-1 render is what `draw` makes of the
    /// dialog's text at scale 1.
    pub fn new<F: FnOnce(u64, Vec<Span>) -> Option<B>>(draw: F) -> (d: Self)
        requires
            forall|t: Vec<Span>| call_requires(draw, (FALLBACK_SCALE_KEY, t)),
        ensures
            d.state() is Hidden,
            d.buffers() == Map::<u64, Option<B>>::empty().insert(FALLBACK_SCALE_KEY, d.fallback()),
            drawn_dialog(draw, FALLBACK_SCALE_KEY, d.fallback()),
    {
        let text = exit_dialog_text();
        let fallback = draw(FALLBACK_SCALE_KEY, text);
        let dialog = ExitConfirmDialog { state: DialogState::Hidden, fallback, buffers: ScaleCache::new() };
        proof {
            assert(dialog.buffers() =~= Map::<u64, Option<B>>::empty().insert(FALLBACK_SCALE_KEY, dialog.fallback()));
        }
        dialog
    }

    /// Whether the dialog can be shown: its scale-1 render succeeded.
    #[verifier::when_used_as_spec(spec_can_show)]
    pub fn can_show(&self) -> (r: bool)
        ensures
            r == self.spec_can_show(),
    {
        self.fallback.is_some()
    }

    /// Whether the dialog is opening or fully open.
    #[verifier::when_used_as_spec(spec_is_open)]
    pub fn is_open(&self) -> (r: bool)
        ensures
            r == self.spec_is_open(),
    {
        match self.state {
            DialogState::Showing(_) | DialogState::Visible => true,
            _ => false,
        }
    }

    /// Replaces the state, handing back the old one.
    fn take_state(&mut self) -> (s: DialogState<A>)
        ensures
            s == old(self).state(),
            final(self).state() is Hidden,
            final(self).fallback() == old(self).fallback(),
            final(self).buffers() == old(self).buffers(),
    {
        let mut s = DialogState::Hidden;
        std::mem::swap(&mut s, &mut self.state);
        s
    }

    /// Starts opening the dialog.
    ///
    /// Returns true if the dialog will be shown (even if it is already
    /// shown); false, changing nothing, when it cannot be shown. A dialog
    /// that is open already is left as it is; a closing one turns around
    /// from where its animation is.
    pub fn show<F>(&mut self, make_anim: F) -> (r: bool)
        where
            F: FnOnce(AnimFrom<A>, Endpoint) -> A,
        requires
            call_requires(make_anim, (anim_from(old(self).state()), Endpoint::One)),
        ensures
            r == old(self).spec_can_show(),
            final(self).fallback() == old(self).fallback(),
            final(self).buffers() == old(self).buffers(),
            final(self).state() == shown(
                old(self).state(),
                old(self).spec_can_show(),
                final(self).state()->Showing_0,
            ),
            r && !old(self).spec_is_open() ==> call_ensures(
                make_anim,
                (anim_from(old(self).state()), Endpoint::One),
                final(self).state()->Showing_0,
            ),
    {
        if !self.can_show() {
            return false;
        }
        if self.is_open() {
            return true;
        }
        let from = self.take_anim_from();
        let anim = make_anim(from, Endpoint::One);
        self.state = DialogState::Showing(anim);
        true
    }

    /// Starts closing the dialog.
    ///
    /// Returns true if it started the hide animation, which it does exactly
    /// when the dialog is open; the animation starts from where the dialog is.
    pub fn dismiss<F>(&mut self, make_anim: F) -> (r: bool)
        where
            F: FnOnce(AnimFrom<A>, Endpoint) -> A,
        requires
            call_requires(make_anim, (anim_from(old(self).state()), Endpoint::Zero)),
        ensures
            r == old(self).spec_is_open(),
            final(self).fallback() == old(self).fallback(),
            final(self).buffers() == old(self).buffers(),
            final(self).state() == dismissed(old(self).state(), final(self).state()->Hiding_0),
            r ==> call_ensures(
                make_anim,
                (anim_from(old(self).state()), Endpoint::Zero),
                final(self).state()->Hiding_0,
            ),
    {
        if !self.is_open() {
            return false;
        }
        let from = self.take_anim_from();
        let anim = make_anim(from, Endpoint::Zero);
        self.state = DialogState::Hiding(anim);
        true
    }

    /// Takes the state out, handing back where a replacing animation starts.
    fn take_anim_from(&mut self) -> (from: AnimFrom<A>)
        ensures
            from == anim_from(old(self).state()),
            final(self).state() is Hidden,
            final(self).fallback() == old(self).fallback(),
            final(self).buffers() == old(self).buffers(),
    {
        match self.take_state() {
            DialogState::Hidden => AnimFrom::Rest(Endpoint::Zero),
            DialogState::Visible => AnimFrom::Rest(Endpoint::One),
            DialogState::Showing(anim) => AnimFrom::Current(anim),
            DialogState::Hiding(anim) => AnimFrom::Current(anim),
        }
    }

    /// Steps the open/close cycle: a finished opening makes the dialog fully
    /// open, a closing that is done when clamped hides it.
    ///
    /// `anim_done` and `anim_clamped_done` say whether the running animation
    /// (if any) is done, and done when clamped to its end.
    pub fn advance_animations(&mut self, anim_done: bool, anim_clamped_done: bool)
        ensures
            final(self).fallback() == old(self).fallback(),
            final(self).buffers() == old(self).buffers(),
            final(self).state() == advanced(old(self).state(), anim_done, anim_clamped_done),
    {
        match self.state {
            DialogState::Showing(_) => {
                if anim_done {
                    self.state = DialogState::Visible;
                }
            },
            DialogState::Hiding(_) => {
                if anim_clamped_done {
                    self.state = DialogState::Hidden;
                }
            },
            _ => {},
        }
    }

    /// Whether the dialog is opening or closing.
    pub fn are_animations_ongoing(&self) -> (r: bool)
        ensures
            r == (self.state() is Showing || self.state() is Hiding),
    {
        match self.state {
            DialogState::Showing(_) | DialogState::Hiding(_) => true,
            _ => false,
        }
    }

    /// The running animation, if the dialog is opening or closing.
    pub fn animation(&self) -> (r: Option<&A>)
        ensures
            match self.state() {
                DialogState::Showing(a) | DialogState::Hiding(a) => r == Some(&a),
                _ => r is None,
            },
    {
        match &self.state {
            DialogState::Showing(anim) | DialogState::Hiding(anim) => Some(anim),
            _ => None,
        }
    }

    /// Gets what to draw on an output whose scale has the key `scale_key`.
    ///
    /// Nothing is drawn while hidden, nor when the scale-1 render failed.
    /// Otherwise the dialog's text is rendered with `draw` at the scale of
    /// `scale_key` unless a result for this scale is cached (a failed render is cached too); where the
    /// render for this scale failed, the scale-1 render is drawn instead.
    pub fn render<F>(&mut self, scale_key: u64, draw: F) -> (r: Option<DialogFrame<'_, A, B>>)
        where
            F: FnOnce(u64, Vec<Span>) -> Option<B>,
        requires
            forall|t: Vec<Span>| call_requires(draw, (scale_key, t)),
        ensures
            final(self).state() == old(self).state(),
            final(self).fallback() == old(self).fallback(),
            (old(self).state() is Hidden || !old(self).spec_can_show()) ==> {
                &&& r is None
                &&& final(self).buffers() == old(self).buffers()
            },
            !(old(self).state() is Hidden || !old(self).spec_can_show()) ==> {
                &&& final(self).buffers().contains_key(scale_key)
                &&& old(self).buffers().contains_key(scale_key) ==> final(self).buffers() == old(
                    self,
                ).buffers()
                &&& !old(self).buffers().contains_key(scale_key) ==> {
                    &&& final(self).buffers() == old(self).buffers().insert(
                        scale_key,
                        final(self).buffers()[scale_key],
                    )
                    &&& drawn_dialog(draw, scale_key, final(self).buffers()[scale_key])
                }
                &&& {
                    let b = match final(self).buffers()[scale_key] {
                        Some(b) => b,
                        None => old(self).fallback()->0,
                    };
                    match old(self).state() {
                        DialogState::Showing(a) | DialogState::Hiding(a) => r matches Some(
                            DialogFrame::Animating { anim, buffer },
                        ) && *anim == a && *buffer == b,
                        _ => r matches Some(DialogFrame::Visible { buffer }) && *buffer == b,
                    }
                }
            },
    {
        if let DialogState::Hidden = self.state {
            return None;
        }
        if !self.can_show() {
            return None;
        }
        if scale_key != FALLBACK_SCALE_KEY && !self.buffers.contains(scale_key) {
            let text = exit_dialog_text();
            let rendered = draw(scale_key, text);
            self.buffers.insert(scale_key, rendered);
            proof {
                assert(self.buffers() =~= old(self).buffers().insert(scale_key, self.buffers()[scale_key]));
            }
        }
        let fallback = match &self.fallback {
            Some(b) => b,
            None => return None,
        };
        let buffer = if scale_key == FALLBACK_SCALE_KEY {
            fallback
        } else {
            match self.buffers.get(scale_key) {
                Some(Some(b)) => b,
                _ => fallback,
            }
        };
        match &self.state {
            DialogState::Showing(anim) | DialogState::Hiding(anim) => Some(
                DialogFrame::Animating { anim, buffer },
            ),
            _ => Some(DialogFrame::Visible { buffer }),
        }
    }
}

/// Stepping the animations never opens or closes the dialog: it stays open
/// (opening or fully open) exactly when it was.
pub proof fn lemma_advance_keeps_open<A>(s: DialogState<A>, done: bool, clamped_done: bool)
    ensures
        is_open_state(advanced(s, done, clamped_done)) == is_open_state(s),
{
}

/// A dialog that is neither opening nor closing is left as it is by a step.
pub proof fn lemma_settled_step_is_noop<A>(s: DialogState<A>, done: bool, clamped_done: bool)
    requires
        !(s is Showing || s is Hiding),
    ensures
        advanced(s, done, clamped_done) == s,
{
}

/// Showing opens the dialog exactly when it can be shown or was open.
pub proof fn lemma_show_opens<A>(s: DialogState<A>, can_show: bool, anim: A)
    ensures
        is_open_state(shown(s, can_show, anim)) == (can_show || is_open_state(s)),
{
}

/// Showing twice is showing once: the second request leaves the opening
/// animation alone.
pub proof fn lemma_show_twice<A>(s: DialogState<A>, can_show: bool, first: A, second: A)
    ensures
        shown(shown(s, can_show, first), can_show, second) == shown(s, can_show, first),
{
}

/// Hiding always leaves the dialog closed.
pub proof fn lemma_dismiss_closes<A>(s: DialogState<A>, anim: A)
    ensures
        !is_open_state(dismissed(s, anim)),
{
}

/// Hiding twice is hiding once: the second request leaves the closing
/// animation alone.
pub proof fn lemma_dismiss_twice<A>(s: DialogState<A>, first: A, second: A)
    ensures
        dismissed(dismissed(s, first), second) == dismissed(s, first),
{
}

/// When the dialog can be shown, hiding right after showing always starts
/// the hide animation.
pub proof fn lemma_show_then_dismiss<A>(s: DialogState<A>, open_anim: A, close_anim: A)
    ensures
        dismissed(shown(s, true, open_anim), close_anim) == DialogState::Hiding(close_anim),
{
}

/// Reopening a closing dialog starts from where the closing animation is,
/// and closing an opening one likewise.
pub proof fn lemma_turn_around_starts_from_current<A>(anim: A)
    ensures
        anim_from(DialogState::Hiding(anim)) == AnimFrom::Current(anim),
        anim_from(DialogState::Showing(anim)) == AnimFrom::Current(anim),
{
}

/// Which states count as open: opening and fully open, not hidden or
/// closing.
pub proof fn lemma_open_states<A>(anim: A)
    ensures
        !is_open_state(DialogState::<A>::Hidden),
        is_open_state(DialogState::Showing(anim)),
        is_open_state(DialogState::<A>::Visible),
        !is_open_state(DialogState::Hiding(anim)),
{
}

/// An opening dialog keeps its running opening animation until that
/// animation is done, whatever else the step reports; then it is fully open.
pub proof fn lemma_opening_waits_until_done<A>(anim: A, clamped_done: bool)
    ensures
        advanced(DialogState::Showing(anim), false, clamped_done) == DialogState::Showing(anim),
        advanced(DialogState::Showing(anim), true, clamped_done) == DialogState::<A>::Visible,
{
}

/// A closing dialog keeps its running closing animation until that
/// animation is done when clamped, whatever else the step reports; then it
/// is hidden.
pub proof fn lemma_closing_waits_until_clamped_done<A>(anim: A, done: bool)
    ensures
        advanced(DialogState::Hiding(anim), done, false) == DialogState::Hiding(anim),
        advanced(DialogState::Hiding(anim), done, true) == DialogState::<A>::Hidden,
{
}

/// A hidden or fully open dialog is left as it is by a step.
pub proof fn lemma_rest_states_ignore_steps<A>(done: bool, clamped_done: bool)
    ensures
        advanced(DialogState::<A>::Hidden, done, clamped_done) == DialogState::<A>::Hidden,
        advanced(DialogState::<A>::Visible, done, clamped_done) == DialogState::<A>::Visible,
{
}

/// Dismissing a hidden or closing dialog changes nothing; an opening or
/// fully open one starts closing with the given animation.
pub proof fn lemma_dismiss_by_state<A>(anim: A, other: A)
    ensures
        dismissed(DialogState::<A>::Hidden, anim) == DialogState::<A>::Hidden,
        dismissed(DialogState::Hiding(other), anim) == DialogState::Hiding(other),
        dismissed(DialogState::Showing(other), anim) == DialogState::Hiding(anim),
        dismissed(DialogState::<A>::Visible, anim) == DialogState::Hiding(anim),
{
}

/// Showing a dialog that can be shown opens a hidden or closing one with
/// the given animation and leaves an opening or fully open one alone;
/// showing one that cannot be shown changes nothing.
pub proof fn lemma_show_by_state<A>(anim: A, other: A, s: DialogState<A>)
    ensures
        shown(DialogState::<A>::Hidden, true, anim) == DialogState::Showing(anim),
        shown(DialogState::Hiding(other), true, anim) == DialogState::Showing(anim),
        shown(DialogState::Showing(other), true, anim) == DialogState::Showing(other),
        shown(DialogState::<A>::Visible, true, anim) == DialogState::<A>::Visible,
        shown(s, false, anim) == s,
{
}

/// A replacing animation starts at 0 from hidden, at 1 from fully open, and
/// from the running animation while opening or closing.
pub proof fn lemma_anim_from_by_state<A>(anim: A)
    ensures
        anim_from(DialogState::<A>::Hidden) == AnimFrom::<A>::Rest(Endpoint::Zero),
        anim_from(DialogState::<A>::Visible) == AnimFrom::<A>::Rest(Endpoint::One),
        anim_from(DialogState::Showing(anim)) == AnimFrom::Current(anim),
        anim_from(DialogState::Hiding(anim)) == AnimFrom::Current(anim),
{
}

} // verus!
