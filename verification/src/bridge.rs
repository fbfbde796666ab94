//! The shortcut bridge.
//!
//! The bridge holds at most one registered global key combination and
//! translates the operating system's key-state transitions for that
//! combination into application-level notifications. Registration asks
//! the operating system to bind the combination; that call is made by
//! the unverified host, which hands its outcome to [`ShortcutBridge::register`]
//! as `os_accepts`. Emitted notifications are appended to a typed log
//! that a caller (or a test harness) can read back directly.
//!
//! Policy: only a `Pressed` transition emits, and every delivered
//! `Pressed` transition emits exactly one notification — a held key
//! whose repeats the operating system reports as further `Pressed`
//! transitions emits once per reported transition. A `Released`
//! transition never emits.

use vstd::prelude::*;
use crate::accelerator::valid_combination;

verus! {

/// A key-state transition reported by the operating system for the
/// registered combination.
#[derive(Clone, Copy, PartialEq, Eq, Structural, Debug)]
pub enum Transition {
    /// The combination went down (also reported for key repeats).
    Pressed,
    /// The combination went up.
    Released,
}

/// A notification emitted towards the presentation layer.
#[derive(Clone, Copy, PartialEq, Eq, Structural, Debug)]
pub enum Notification {
    /// The registered combination was pressed: toggle the recording
    /// workflow.
    ToggleRecord,
}

impl Notification {
    /// The name under which the notification crosses the process
    /// boundary.
    pub fn event_name(&self) -> (r: &'static str)
        ensures
            r@ == spec_event_name(*self),
    {
        "toggle-record"
    }
}

/// The wire name of each notification.
pub open spec fn spec_event_name(n: Notification) -> Seq<char> {
    "toggle-record"@
}

/// The global shortcut combination could not be bound.
#[derive(Clone, Copy, PartialEq, Eq, Structural, Debug)]
pub enum RegistrationError {
    /// The combination does not parse under the accelerator grammar.
    Malformed,
    /// The combination is already claimed, by another process or by an
    /// earlier registration.
    Conflict,
}

/// When a registration attempt succeeds: the bridge is still
/// unregistered, the combination parses, and the operating system
/// accepted the binding.
pub open spec fn spec_register_ok(
    already_registered: bool,
    combination: Seq<char>,
    os_accepts: bool,
) -> bool {
    &&& !already_registered
    &&& valid_combination(combination)
    &&& os_accepts
}

/// What a single transition emits on a bridge whose registration state
/// is `registered`.
pub open spec fn spec_emission(registered: bool, t: Transition) -> Option<Notification> {
    if registered && t == Transition::Pressed {
        Some(Notification::ToggleRecord)
    } else {
        None
    }
}

/// The same emission as a (zero- or one-element) sequence.
pub open spec fn spec_emission_seq(registered: bool, t: Transition) -> Seq<Notification> {
    match spec_emission(registered, t) {
        Some(n) => seq![n],
        None => Seq::empty(),
    }
}

/// Everything a bridge with registration state `registered` emits over
/// a whole sequence of transitions.
pub open spec fn notifications_of(registered: bool, ts: Seq<Transition>) -> Seq<Notification>
    decreases ts.len(),
{
    if ts.len() == 0 {
        Seq::empty()
    } else {
        spec_emission_seq(registered, ts[0]) + notifications_of(
            registered,
            ts.subrange(1, ts.len() as int),
        )
    }
}

/// How many `Pressed` transitions a sequence holds.
pub open spec fn press_count(ts: Seq<Transition>) -> nat
    decreases ts.len(),
{
    if ts.len() == 0 {
        0
    } else {
        (if ts[0] == Transition::Pressed {
            1nat
        } else {
            0nat
        }) + press_count(ts.subrange(1, ts.len() as int))
    }
}

/// The bridge: at most one registered combination, and the log of
/// every notification emitted so far.
pub struct ShortcutBridge {
    combination: Option<String>,
    emitted: Vec<Notification>,
}

impl ShortcutBridge {
    /// The bridge's invariant: whatever combination is registered is
    /// syntactically valid. Every constructor establishes it and every
    /// method preserves it.
    pub open spec fn spec_wf(&self) -> bool {
        self.spec_registered() ==> valid_combination(self.spec_combination())
    }

    /// Whether a combination has been registered.
    pub closed spec fn spec_registered(&self) -> bool {
        self.combination is Some
    }

    /// The registered combination.
    pub closed spec fn spec_combination(&self) -> Seq<char> {
        self.combination->0@
    }

    /// The notifications emitted so far, oldest first.
    pub closed spec fn spec_emitted(&self) -> Seq<Notification> {
        self.emitted@
    }

    /// A fresh, unregistered bridge that has emitted nothing.
    pub fn new() -> (r: Self)
        ensures
            !r.spec_registered(),
            r.spec_emitted() == Seq::<Notification>::empty(),
            r.spec_wf(),
    {
        ShortcutBridge { combination: None, emitted: Vec::new() }
    }

    /// Whether a combination has been registered.
    pub fn is_registered(&self) -> (r: bool)
        ensures
            r == self.spec_registered(),
    {
        self.combination.is_some()
    }

    /// The notifications emitted so far, oldest first.
    pub fn emitted(&self) -> (r: &Vec<Notification>)
        ensures
            r@ == self.spec_emitted(),
    {
        &self.emitted
    }

    /// Register `combination`. `os_accepts` is the outcome of the
    /// host's binding call against the operating system: `false` when
    /// the combination is already claimed elsewhere.
    ///
    /// Succeeds exactly when the bridge was unregistered, the
    /// combination parses under the accelerator grammar, and the
    /// operating system accepted the binding; a malformed combination
    /// is refused before anything else is considered.
    pub fn register(&mut self, combination: &str, os_accepts: bool) -> (r: Result<
        (),
        RegistrationError,
    >)
        ensures
            r is Ok <==> spec_register_ok(
                old(self).spec_registered(),
                combination@,
                os_accepts,
            ),
            r is Ok ==> final(self).spec_registered() && final(self).spec_combination()
                == combination@,
            r is Err ==> *final(self) == *old(self),
            !valid_combination(combination@) ==> r == Result::<(), RegistrationError>::Err(
                RegistrationError::Malformed,
            ),
            valid_combination(combination@) && (old(self).spec_registered() || !os_accepts)
                ==> r == Result::<(), RegistrationError>::Err(RegistrationError::Conflict),
            final(self).spec_emitted() == old(self).spec_emitted(),
            old(self).spec_wf() ==> final(self).spec_wf(),
    {
        if !crate::accelerator::is_valid_combination(combination) {
            return Err(RegistrationError::Malformed);
        }
        if self.combination.is_some() || !os_accepts {
            return Err(RegistrationError::Conflict);
        }
        self.combination = Some(combination.to_owned());
        Ok(())
    }

    /// Feed one operating-system transition to the bridge. Emits (and
    /// logs) one `ToggleRecord` notification exactly when the bridge is
    /// registered and the transition is `Pressed`.
    pub fn on_transition(&mut self, t: Transition) -> (r: Option<Notification>)
        ensures
            final(self).spec_registered() == old(self).spec_registered(),
            final(self).spec_combination() == old(self).spec_combination(),
            r == spec_emission(old(self).spec_registered(), t),
            final(self).spec_emitted() == old(self).spec_emitted() + spec_emission_seq(
                old(self).spec_registered(),
                t,
            ),
            old(self).spec_wf() ==> final(self).spec_wf(),
    {
        if self.combination.is_some() && matches!(t, Transition::Pressed) {
            self.emitted.push(Notification::ToggleRecord);
            proof {
                assert(self.spec_emitted() =~= old(self).spec_emitted() + spec_emission_seq(
                    old(self).spec_registered(),
                    t,
                ));
            }
            Some(Notification::ToggleRecord)
        } else {
            proof {
                assert(self.spec_emitted() =~= old(self).spec_emitted() + spec_emission_seq(
                    old(self).spec_registered(),
                    t,
                ));
            }
            None
        }
    }
}

/// Law: a bridge that never became registered emits nothing, whatever
/// transitions the operating system delivers.
pub proof fn lemma_unregistered_never_notifies(ts: Seq<Transition>)
    ensures
        notifications_of(false, ts) =~= Seq::<Notification>::empty(),
    decreases ts.len(),
{
    if ts.len() > 0 {
        lemma_unregistered_never_notifies(ts.subrange(1, ts.len() as int));
    }
}

/// Law: a malformed combination is never registered — by any bridge,
/// whatever the operating system would have answered — and a bridge
/// left unregistered by that failure never emits a notification.
pub proof fn lemma_malformed_register_silent(
    already_registered: bool,
    combination: Seq<char>,
    os_accepts: bool,
    ts: Seq<Transition>,
)
    requires
        !valid_combination(combination),
    ensures
        !spec_register_ok(already_registered, combination, os_accepts),
        notifications_of(false, ts) =~= Seq::<Notification>::empty(),
{
    lemma_unregistered_never_notifies(ts);
}

/// Law: on a registered bridge every delivered `Pressed` transition
/// emits exactly one notification, a `Released` transition emits none,
/// and everything emitted is `ToggleRecord`.
pub proof fn lemma_one_notification_per_press(ts: Seq<Transition>)
    ensures
        notifications_of(true, ts).len() == press_count(ts),
        forall|i: int|
            0 <= i < notifications_of(true, ts).len() ==> notifications_of(true, ts)[i]
                == Notification::ToggleRecord,
    decreases ts.len(),
{
    if ts.len() > 0 {
        lemma_one_notification_per_press(ts.subrange(1, ts.len() as int));
    }
}

/// Law: a single transition emits a notification exactly when the
/// bridge is registered and the transition is `Pressed`.
pub proof fn lemma_press_policy(registered: bool, t: Transition)
    ensures
        spec_emission(registered, t) is Some <==> (registered && t == Transition::Pressed),
        t == Transition::Released ==> spec_emission(registered, t) is None,
{
}

} // verus!
