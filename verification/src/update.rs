//! The sequence of shell calls that one badge update makes.
//!
//! An update takes a window and a count. It acquires the shell's context,
//! obtains the taskbar interface, clears any progress indicator on the
//! window, and then either clears the window's overlay icon (count zero) or
//! resolves the glyph for the count and applies it as the overlay icon. The
//! context is released on every path on which it was acquired. No failure is
//! reported: a call that fails leaves the rest of the update out, and a badge
//! that cannot be shown is simply not shown.
//!
//! `BadgeUpdate` makes these decisions and nothing else. It names the call
//! that is due (`pending`); the caller makes it and reports how it went
//! (`advance`).

use crate::glyph::{badge_for_count, badge_of, candidate_paths, glyph_paths, Badge};
use crate::handle::{IconHandle, WindowHandle};
use crate::search::{Disk, IconSearch, SearchState};
use vstd::prelude::*;

verus! {

/// What an update did to the overlay that the shell shows.
#[derive(Clone, Copy, Debug, PartialEq, Eq, Structural)]
pub enum Effect {
    /// The overlay is as it was: no call that sets it was made, or the call
    /// failed.
    Unchanged,
    /// The overlay now shows this badge.
    Shown(Badge),
}

impl Effect {
    /// The overlay after the update, given the overlay before it.
    pub open spec fn on(self, before: Badge) -> Badge {
        match self {
            Effect::Unchanged => before,
            Effect::Shown(badge) => badge,
        }
    }
}

/// What the caller is asked to do.
#[derive(Clone, Copy, Debug, PartialEq, Eq, Structural)]
pub enum ShellCall {
    /// Initialise the shell's context for this call.
    AcquireContext,
    /// Obtain the taskbar interface, under the taskbar list class.
    ObtainTaskbar,
    /// Clear the progress indicator of the window.
    ClearProgress,
    /// Clear the overlay icon of the window.
    ClearOverlay,
    /// Find and load the glyph for the count, from its candidate paths.
    ResolveIcon,
    /// Make this icon the overlay icon of the window.
    ApplyOverlay(IconHandle),
    /// Tear down the shell's context.
    ReleaseContext,
    /// Nothing more: the update is over, with this effect.
    Return(Effect),
}

/// What the caller reports back.
#[derive(Clone, Copy, Debug, PartialEq, Eq, Structural)]
pub enum ShellEvent {
    /// The call succeeded.
    Succeeded,
    /// The call failed.
    Failed,
    /// The answer to `ShellCall::ResolveIcon`: the icon that loaded, if any.
    Resolved(Option<IconHandle>),
}

/// Where an update stands: the call that is due.
#[derive(Clone, Copy, Debug, PartialEq, Eq, Structural)]
pub enum Stage {
    /// The context is to be acquired.
    Acquiring,
    /// The taskbar interface is to be obtained.
    Binding,
    /// The progress indicator is to be cleared.
    Resetting,
    /// The overlay is to be cleared.
    Clearing,
    /// The glyph is to be resolved.
    Resolving,
    /// The glyph is to be applied.
    Applying(IconHandle),
    /// The context is to be released.
    Releasing(Effect),
    /// The update is over.
    Done(Effect),
}

impl Stage {
    /// The call that is due at this stage.
    pub open spec fn due(self) -> ShellCall {
        match self {
            Stage::Acquiring => ShellCall::AcquireContext,
            Stage::Binding => ShellCall::ObtainTaskbar,
            Stage::Resetting => ShellCall::ClearProgress,
            Stage::Clearing => ShellCall::ClearOverlay,
            Stage::Resolving => ShellCall::ResolveIcon,
            Stage::Applying(icon) => ShellCall::ApplyOverlay(icon),
            Stage::Releasing(_) => ShellCall::ReleaseContext,
            Stage::Done(effect) => ShellCall::Return(effect),
        }
    }

    /// The stage after `event`, in an update that is to show `badge`.
    ///
    /// Without a context there is nothing to do and nothing to release.
    /// Without the interface only the release is left. The progress
    /// indicator is cleared whether or not that succeeds. Then the empty
    /// badge clears the overlay, and any other badge has its glyph resolved
    /// and, if one was found, applied. Whatever was done, the context is
    /// released. An event that does not answer the call that is due changes
    /// nothing.
    pub open spec fn after(self, badge: Badge, event: ShellEvent) -> Stage {
        match (self, event) {
            (Stage::Acquiring, ShellEvent::Succeeded) => Stage::Binding,
            (Stage::Acquiring, ShellEvent::Failed) => Stage::Done(Effect::Unchanged),
            (Stage::Binding, ShellEvent::Succeeded) => Stage::Resetting,
            (Stage::Binding, ShellEvent::Failed) => Stage::Releasing(Effect::Unchanged),
            (Stage::Resetting, ShellEvent::Succeeded) | (Stage::Resetting, ShellEvent::Failed) => {
                if badge == Badge::NoBadge {
                    Stage::Clearing
                } else {
                    Stage::Resolving
                }
            },
            (Stage::Clearing, ShellEvent::Succeeded) => Stage::Releasing(
                Effect::Shown(Badge::NoBadge),
            ),
            (Stage::Clearing, ShellEvent::Failed) => Stage::Releasing(Effect::Unchanged),
            (Stage::Resolving, ShellEvent::Resolved(Some(icon))) => Stage::Applying(icon),
            (Stage::Resolving, ShellEvent::Resolved(None)) => Stage::Releasing(Effect::Unchanged),
            (Stage::Applying(_), ShellEvent::Succeeded) => Stage::Releasing(Effect::Shown(badge)),
            (Stage::Applying(_), ShellEvent::Failed) => Stage::Releasing(Effect::Unchanged),
            (Stage::Releasing(effect), ShellEvent::Succeeded) | (
                Stage::Releasing(effect),
                ShellEvent::Failed,
            ) => Stage::Done(effect),
            _ => self,
        }
    }
}

/// One update of a window's badge.
#[derive(Clone, Copy, Debug, PartialEq, Eq, Structural)]
pub struct BadgeUpdate {
    /// The window whose taskbar button is to show the badge.
    pub window: WindowHandle,
    /// The count to show. Any count is taken; it is clamped when the glyph is
    /// chosen. Counts are unsigned: there is no negative count to take.
    pub count: u32,
    /// Where the update stands.
    pub stage: Stage,
}

impl BadgeUpdate {
    /// The badge that this update is to show.
    pub open spec fn target(self) -> Badge {
        badge_of(self.count as nat)
    }

    /// Begins the update of `window`'s badge to `count`. Nothing has been
    /// called yet; the first call due is the acquisition of the context.
    pub fn begin(window: WindowHandle, count: u32) -> (update: BadgeUpdate)
        ensures
            update == (BadgeUpdate { window, count, stage: Stage::Acquiring }),
    {
        BadgeUpdate { window, count, stage: Stage::Acquiring }
    }

    /// The badge that this update is to show: none for a count of zero, the
    /// digit for a count up to nine, the overflow badge above.
    pub fn badge(&self) -> (badge: Badge)
        ensures
            badge == self.target(),
            badge.wf(),
    {
        badge_for_count(self.count)
    }

    /// The search that resolves the glyph of this update, to be run when
    /// `ShellCall::ResolveIcon` is due: over the glyph's primary path and
    /// then its packaged path, with nothing looked for yet.
    pub fn glyph_search(&self) -> (search: IconSearch)
        ensures
            search.paths@.len() == candidate_paths(self.target()).len(),
            forall|i: int|
                0 <= i < search.paths@.len() ==> (#[trigger] search.paths@[i])@ == candidate_paths(
                    self.target(),
                )[i],
            search.state == SearchState::initial(search.paths@.len()),
            search.wf(),
    {
        IconSearch::start(glyph_paths(self.count))
    }

    /// The call that is due, or, once the update is over, its effect.
    pub fn pending(&self) -> (call: ShellCall)
        ensures
            call == self.stage.due(),
            call is Return <==> self.stage is Done,
    {
        match self.stage {
            Stage::Acquiring => ShellCall::AcquireContext,
            Stage::Binding => ShellCall::ObtainTaskbar,
            Stage::Resetting => ShellCall::ClearProgress,
            Stage::Clearing => ShellCall::ClearOverlay,
            Stage::Resolving => ShellCall::ResolveIcon,
            Stage::Applying(icon) => ShellCall::ApplyOverlay(icon),
            Stage::Releasing(_) => ShellCall::ReleaseContext,
            Stage::Done(effect) => ShellCall::Return(effect),
        }
    }

    /// Takes in how the call went and moves on.
    pub fn advance(&mut self, event: ShellEvent)
        ensures
            final(self).window == old(self).window,
            final(self).count == old(self).count,
            final(self).stage == old(self).stage.after(old(self).target(), event),
    {
        let badge = badge_for_count(self.count);
        match (self.stage, event) {
            (Stage::Acquiring, ShellEvent::Succeeded) => {
                self.stage = Stage::Binding;
            },
            (Stage::Acquiring, ShellEvent::Failed) => {
                self.stage = Stage::Done(Effect::Unchanged);
            },
            (Stage::Binding, ShellEvent::Succeeded) => {
                self.stage = Stage::Resetting;
            },
            (Stage::Binding, ShellEvent::Failed) => {
                self.stage = Stage::Releasing(Effect::Unchanged);
            },
            (Stage::Resetting, ShellEvent::Succeeded) | (Stage::Resetting, ShellEvent::Failed) => {
                match badge {
                    Badge::NoBadge => {
                        self.stage = Stage::Clearing;
                    },
                    _ => {
                        self.stage = Stage::Resolving;
                    },
                }
            },
            (Stage::Clearing, ShellEvent::Succeeded) => {
                self.stage = Stage::Releasing(Effect::Shown(Badge::NoBadge));
            },
            (Stage::Clearing, ShellEvent::Failed) => {
                self.stage = Stage::Releasing(Effect::Unchanged);
            },
            (Stage::Resolving, ShellEvent::Resolved(Some(icon))) => {
                self.stage = Stage::Applying(icon);
            },
            (Stage::Resolving, ShellEvent::Resolved(None)) => {
                self.stage = Stage::Releasing(Effect::Unchanged);
            },
            (Stage::Applying(_), ShellEvent::Succeeded) => {
                self.stage = Stage::Releasing(Effect::Shown(badge));
            },
            (Stage::Applying(_), ShellEvent::Failed) => {
                self.stage = Stage::Releasing(Effect::Unchanged);
            },
            (Stage::Releasing(effect), ShellEvent::Succeeded) | (
                Stage::Releasing(effect),
                ShellEvent::Failed,
            ) => {
                self.stage = Stage::Done(effect);
            },
            _ => {},
        }
    }
}

/// How the shell answers, as far as one update can tell.
pub struct Shell {
    /// Acquiring the context succeeds.
    pub context: bool,
    /// The taskbar interface can be obtained.
    pub taskbar: bool,
    /// Clearing the progress indicator succeeds.
    pub progress: bool,
    /// What resolving the glyph comes to: the icon that loads, if any.
    pub icon: Option<IconHandle>,
    /// Setting or clearing the overlay icon succeeds.
    pub overlay: bool,
}

/// `Succeeded` or `Failed`.
pub open spec fn outcome(ok: bool) -> ShellEvent {
    if ok {
        ShellEvent::Succeeded
    } else {
        ShellEvent::Failed
    }
}

impl Shell {
    /// What the caller reports when it makes `call` on this shell.
    pub open spec fn answer(self, call: ShellCall) -> ShellEvent {
        match call {
            ShellCall::AcquireContext => outcome(self.context),
            ShellCall::ObtainTaskbar => outcome(self.taskbar),
            ShellCall::ClearProgress => outcome(self.progress),
            ShellCall::ClearOverlay => outcome(self.overlay),
            ShellCall::ResolveIcon => ShellEvent::Resolved(self.icon),
            ShellCall::ApplyOverlay(_) => outcome(self.overlay),
            ShellCall::ReleaseContext => ShellEvent::Succeeded,
            ShellCall::Return(_) => ShellEvent::Succeeded,
        }
    }

    /// The shell lets an update reach the call that sets the overlay, and
    /// that call succeeds.
    pub open spec fn obliging(self) -> bool {
        self.context && self.taskbar && self.overlay
    }

    /// What an update that is to show `badge` does to the overlay on this
    /// shell. The overlay shows `badge` if the context was acquired, the
    /// interface obtained, the glyph found (the empty badge needs none) and
    /// the call that sets the overlay succeeded. Otherwise it is as it was.
    pub open spec fn effect_of(self, badge: Badge) -> Effect {
        if self.obliging() && (badge == Badge::NoBadge || self.icon is Some) {
            Effect::Shown(badge)
        } else {
            Effect::Unchanged
        }
    }

    /// The calls that an update that is to show `badge` makes on this shell,
    /// in order.
    pub open spec fn expected_calls(self, badge: Badge) -> Seq<ShellCall> {
        if !self.context {
            seq![ShellCall::AcquireContext]
        } else if !self.taskbar {
            seq![ShellCall::AcquireContext, ShellCall::ObtainTaskbar, ShellCall::ReleaseContext]
        } else if badge == Badge::NoBadge {
            seq![
                ShellCall::AcquireContext,
                ShellCall::ObtainTaskbar,
                ShellCall::ClearProgress,
                ShellCall::ClearOverlay,
                ShellCall::ReleaseContext,
            ]
        } else {
            match self.icon {
                None => seq![
                    ShellCall::AcquireContext,
                    ShellCall::ObtainTaskbar,
                    ShellCall::ClearProgress,
                    ShellCall::ResolveIcon,
                    ShellCall::ReleaseContext,
                ],
                Some(icon) => seq![
                    ShellCall::AcquireContext,
                    ShellCall::ObtainTaskbar,
                    ShellCall::ClearProgress,
                    ShellCall::ResolveIcon,
                    ShellCall::ApplyOverlay(icon),
                    ShellCall::ReleaseContext,
                ],
            }
        }
    }
}

impl Stage {
    /// An upper bound on the calls still to come.
    pub open spec fn steps_left(self) -> nat {
        match self {
            Stage::Acquiring => 6,
            Stage::Binding => 5,
            Stage::Resetting => 4,
            Stage::Resolving => 3,
            Stage::Clearing => 2,
            Stage::Applying(_) => 2,
            Stage::Releasing(_) => 1,
            Stage::Done(_) => 0,
        }
    }

    /// The stage at which an update that is to show `badge` ends when it goes
    /// on from this stage and every call is answered by `shell`.
    pub open spec fn run(self, badge: Badge, shell: Shell) -> Stage
        decreases self.steps_left(),
    {
        if self is Done {
            self
        } else {
            self.after(badge, shell.answer(self.due())).run(badge, shell)
        }
    }

    /// The calls that such an update makes on its way, in order.
    pub open spec fn calls(self, badge: Badge, shell: Shell) -> Seq<ShellCall>
        decreases self.steps_left(),
    {
        if self is Done {
            Seq::empty()
        } else {
            seq![self.due()] + self.after(badge, shell.answer(self.due())).calls(badge, shell)
        }
    }
}

/// The end of every update: the release of the context, with `effect`.
proof fn lemma_release(badge: Badge, shell: Shell, effect: Effect)
    ensures
        Stage::Releasing(effect).run(badge, shell) == Stage::Done(effect),
        Stage::Releasing(effect).calls(badge, shell) == seq![ShellCall::ReleaseContext],
{
    let done = Stage::Done(effect);
    assert(Stage::Releasing(effect).after(badge, shell.answer(ShellCall::ReleaseContext)) == done);
    assert(done.run(badge, shell) == done);
    assert(done.calls(badge, shell) == Seq::<ShellCall>::empty());
    assert(Stage::Releasing(effect).run(badge, shell) == done.run(badge, shell));
    assert(Stage::Releasing(effect).calls(badge, shell) =~= seq![ShellCall::ReleaseContext]);
}

/// An update from the progress indicator on.
proof fn lemma_from_reset(badge: Badge, shell: Shell)
    requires
        shell.context,
        shell.taskbar,
    ensures
        Stage::Resetting.run(badge, shell) == Stage::Done(shell.effect_of(badge)),
        seq![ShellCall::AcquireContext, ShellCall::ObtainTaskbar] + Stage::Resetting.calls(
            badge,
            shell,
        ) == shell.expected_calls(badge),
{
    let start = Stage::Resetting;
    let second = start.after(badge, shell.answer(start.due()));
    let third = second.after(badge, shell.answer(second.due()));
    assert(start.run(badge, shell) == second.run(badge, shell));
    assert(second.run(badge, shell) == third.run(badge, shell));
    assert(start.calls(badge, shell) == seq![start.due()] + second.calls(badge, shell));
    assert(second.calls(badge, shell) == seq![second.due()] + third.calls(badge, shell));
    if badge == Badge::NoBadge {
        assert(second == Stage::Clearing);
        let effect = if shell.overlay {
            Effect::Shown(Badge::NoBadge)
        } else {
            Effect::Unchanged
        };
        assert(third == Stage::Releasing(effect));
        lemma_release(badge, shell, effect);
        assert(seq![ShellCall::AcquireContext, ShellCall::ObtainTaskbar] + start.calls(badge, shell)
            =~= shell.expected_calls(badge));
    } else {
        assert(second == Stage::Resolving);
        match shell.icon {
            None => {
                assert(third == Stage::Releasing(Effect::Unchanged));
                lemma_release(badge, shell, Effect::Unchanged);
                assert(seq![ShellCall::AcquireContext, ShellCall::ObtainTaskbar] + start.calls(
                    badge,
                    shell,
                ) =~= shell.expected_calls(badge));
            },
            Some(icon) => {
                assert(third == Stage::Applying(icon));
                let effect = if shell.overlay {
                    Effect::Shown(badge)
                } else {
                    Effect::Unchanged
                };
                let fourth = third.after(badge, shell.answer(third.due()));
                assert(fourth == Stage::Releasing(effect));
                assert(third.run(badge, shell) == fourth.run(badge, shell));
                assert(third.calls(badge, shell) == seq![third.due()] + fourth.calls(
                    badge,
                    shell,
                ));
                lemma_release(badge, shell, effect);
                assert(seq![ShellCall::AcquireContext, ShellCall::ObtainTaskbar] + start.calls(
                    badge,
                    shell,
                ) =~= shell.expected_calls(badge));
            },
        }
    }
}

/// What an update does, call by call, and what comes of it.
///
/// An update that is to show `badge`, answered by a shell, always comes to an
/// end. The calls it makes are those of `Shell::expected_calls`: the
/// acquisition of the context alone where that fails; otherwise the taskbar
/// interface and, where that is obtained, the clearing of the progress
/// indicator and then either the clearing of the overlay (the empty badge) or
/// the resolving of the glyph and, where one loads, its application; and last
/// the release of the context. Its effect on the overlay is that of
/// `Shell::effect_of`.
pub proof fn lemma_update_runs(badge: Badge, shell: Shell)
    ensures
        Stage::Acquiring.run(badge, shell) == Stage::Done(shell.effect_of(badge)),
        Stage::Acquiring.calls(badge, shell) == shell.expected_calls(badge),
{
    let start = Stage::Acquiring;
    let second = start.after(badge, shell.answer(start.due()));
    assert(start.run(badge, shell) == second.run(badge, shell));
    assert(start.calls(badge, shell) == seq![start.due()] + second.calls(badge, shell));
    if !shell.context {
        assert(second == Stage::Done(Effect::Unchanged));
        assert(second.run(badge, shell) == second);
        assert(second.calls(badge, shell) == Seq::<ShellCall>::empty());
        assert(start.calls(badge, shell) =~= shell.expected_calls(badge));
    } else {
        assert(second == Stage::Binding);
        let third = second.after(badge, shell.answer(second.due()));
        assert(second.run(badge, shell) == third.run(badge, shell));
        assert(second.calls(badge, shell) == seq![second.due()] + third.calls(badge, shell));
        if !shell.taskbar {
            assert(third == Stage::Releasing(Effect::Unchanged));
            lemma_release(badge, shell, Effect::Unchanged);
            assert(start.calls(badge, shell) =~= shell.expected_calls(badge));
        } else {
            assert(third == Stage::Resetting);
            lemma_from_reset(badge, shell);
            assert(start.calls(badge, shell) =~= seq![
                ShellCall::AcquireContext,
                ShellCall::ObtainTaskbar,
            ] + third.calls(badge, shell));
        }
    }
}

/// The context is released on every path on which it was acquired, and on no
/// other.
///
/// The first call of an update acquires the context, and no later call does.
/// Where that succeeds, the last call releases it, and no earlier call does.
/// Where it fails, nothing else is called: no release, and no call on the
/// window.
pub proof fn lemma_context_released(badge: Badge, shell: Shell)
    ensures
        ({
            let calls = Stage::Acquiring.calls(badge, shell);
            &&& calls.len() >= 1
            &&& calls[0] == ShellCall::AcquireContext
            &&& forall|i: int| 1 <= i < calls.len() ==> calls[i] != ShellCall::AcquireContext
            &&& shell.context ==> calls.last() == ShellCall::ReleaseContext
            &&& forall|i: int| 0 <= i < calls.len() - 1 ==> calls[i] != ShellCall::ReleaseContext
            &&& !shell.context ==> calls.len() == 1
        }),
{
    lemma_update_runs(badge, shell);
}

/// An icon handle that is applied is one that loaded.
///
/// Every icon that an update hands to the shell is the icon that resolving
/// the glyph came up with, and it is handed over at most once.
pub proof fn lemma_applied_icon_loaded(badge: Badge, shell: Shell)
    ensures
        ({
            let calls = Stage::Acquiring.calls(badge, shell);
            &&& forall|i: int, icon: IconHandle|
                0 <= i < calls.len() && calls[i] == ShellCall::ApplyOverlay(icon) ==> shell.icon
                    == Some(icon)
            &&& forall|i: int, j: int|
                0 <= i < j < calls.len() && calls[i] is ApplyOverlay ==> !(calls[j]
                    is ApplyOverlay)
        }),
{
    lemma_update_runs(badge, shell);
}

/// The same update twice leaves the overlay as the update once.
///
/// Two updates to the same badge, one after the other, leave the overlay as
/// the first alone left it. The shell may answer the second otherwise than
/// the first, with one exception: where the first had no effect, the overlay
/// did not show the badge already, and the second does have an effect, the
/// second update is the one that shows the badge.
pub proof fn lemma_update_idempotent(before: Badge, badge: Badge, first: Shell, second: Shell)
    requires
        first.effect_of(badge) is Shown || second.effect_of(badge) is Unchanged || before == badge,
    ensures
        ({
            let once = Stage::Acquiring.run(badge, first);
            let again = Stage::Acquiring.run(badge, second);
            &&& once == Stage::Done(first.effect_of(badge))
            &&& again == Stage::Done(second.effect_of(badge))
            &&& second.effect_of(badge).on(first.effect_of(badge).on(before)) == first.effect_of(
                badge,
            ).on(before)
        }),
{
    lemma_update_runs(badge, first);
    lemma_update_runs(badge, second);
}

/// An update to the badge that is shown already changes nothing, however the
/// shell answers.
pub proof fn lemma_resend_is_no_op(badge: Badge, shell: Shell)
    ensures
        Stage::Acquiring.run(badge, shell) == Stage::Done(shell.effect_of(badge)),
        shell.effect_of(badge).on(badge) == badge,
{
    lemma_update_runs(badge, shell);
}

/// A count of zero clears the badge.
///
/// On a shell that gives out its context and the taskbar interface, and on
/// which the overlay call succeeds, an update to the empty badge leaves no
/// overlay, whatever was shown before, and loads no icon on the way.
pub proof fn lemma_zero_clears(before: Badge, shell: Shell)
    requires
        shell.obliging(),
    ensures
        Stage::Acquiring.run(Badge::NoBadge, shell) == Stage::Done(Effect::Shown(Badge::NoBadge)),
        Effect::Shown(Badge::NoBadge).on(before) == Badge::NoBadge,
        badge_of(0) == Badge::NoBadge,
        ({
            let calls = Stage::Acquiring.calls(Badge::NoBadge, shell);
            forall|i: int| 0 <= i < calls.len() ==> calls[i] != ShellCall::ResolveIcon
        }),
{
    lemma_update_runs(Badge::NoBadge, shell);
}

/// A count above zero shows its badge.
///
/// On an obliging shell on which the glyph loads, an update shows the badge
/// of its count, whatever was shown before: the digit for a count up to nine,
/// and the overflow badge for every count above, however large.
pub proof fn lemma_count_shown(before: Badge, count: nat, shell: Shell)
    requires
        shell.obliging(),
        shell.icon is Some,
        count > 0,
    ensures
        Stage::Acquiring.run(badge_of(count), shell) == Stage::Done(
            Effect::Shown(badge_of(count)),
        ),
        Effect::Shown(badge_of(count)).on(before) == badge_of(count),
        count <= 9 ==> badge_of(count) == Badge::NumericBadge(count as u8),
        count > 9 ==> badge_of(count) == Badge::OverflowBadge,
{
    lemma_update_runs(badge_of(count), shell);
}

/// A glyph that is nowhere to be found changes nothing and is no error.
///
/// Where the glyph of a badge loads from none of its candidate paths, neither
/// under the working directory nor beside the executable, the update makes no
/// call that sets the overlay, releases the context, and ends with the
/// overlay as it was.
pub proof fn lemma_missing_glyph(badge: Badge, shell: Shell, disk: Disk, n: nat)
    requires
        badge != Badge::NoBadge,
        disk.wf(n),
        n <= usize::MAX,
        forall|j: int| 0 <= j < n ==> !(#[trigger] disk.working[j] is Loaded),
        disk.beside matches Some(found) ==> forall|j: int|
            0 <= j < n ==> !(#[trigger] found[j] is Loaded),
        shell.icon == disk.resolves(),
    ensures
        Stage::Acquiring.run(badge, shell) == Stage::Done(Effect::Unchanged),
        ({
            let calls = Stage::Acquiring.calls(badge, shell);
            &&& forall|i: int|
                0 <= i < calls.len() ==> !(calls[i] is ApplyOverlay) && calls[i]
                    != ShellCall::ClearOverlay
            &&& shell.context ==> calls.last() == ShellCall::ReleaseContext
        }),
{
    crate::search::lemma_nothing_found(n, disk);
    lemma_update_runs(badge, shell);
}

} // verus!
