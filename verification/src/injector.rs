//! The text injector.
//!
//! Given a text, the injector plans the sequence of key-down/key-up
//! events that spells it and delivers the plan atomically: either the
//! operating system accepts synthetic input and the focused target
//! receives exactly the text, in order, or the operating system refuses
//! and the target receives nothing. The synthesis call itself is
//! operating-system work done by the unverified host; its verdict
//! arrives here as an [`OsInputResponse`], and [`FocusTarget`] models
//! the application that holds keyboard focus, so the whole contract is
//! checkable end to end.

use vstd::prelude::*;
use vstd::string::StrSliceExecFns;
use vstd::string::StringExecFns;

verus! {

/// One synthetic keyboard event.
#[derive(Clone, Copy, PartialEq, Eq, Structural, Debug)]
pub enum InputEvent {
    /// The key that types `char` goes down.
    KeyDown(char),
    /// The key that types `char` goes up.
    KeyUp(char),
}

/// The operating system's verdict on a request to synthesize input.
#[derive(Clone, Copy, PartialEq, Eq, Structural, Debug)]
pub enum OsInputResponse {
    /// The events were delivered to the focused target.
    Accepted,
    /// The process lacks the permission that gates synthetic input.
    PermissionDenied,
    /// Nothing holds keyboard focus.
    NoFocusedTarget,
    /// The input subsystem is unavailable.
    SubsystemUnavailable,
}

/// The operating system refused or failed a synthesized input request.
#[derive(Clone, Copy, PartialEq, Eq, Structural, Debug)]
pub enum InjectionError {
    /// The process lacks the permission that gates synthetic input.
    PermissionDenied,
    /// Nothing holds keyboard focus.
    NoFocusedTarget,
    /// The input subsystem is unavailable.
    SubsystemUnavailable,
}

/// The error that each failing verdict surfaces.
pub open spec fn spec_failure_of(response: OsInputResponse) -> InjectionError {
    match response {
        OsInputResponse::Accepted => InjectionError::SubsystemUnavailable,
        OsInputResponse::PermissionDenied => InjectionError::PermissionDenied,
        OsInputResponse::NoFocusedTarget => InjectionError::NoFocusedTarget,
        OsInputResponse::SubsystemUnavailable => InjectionError::SubsystemUnavailable,
    }
}

/// The stringified failure reason of each injection error.
pub open spec fn spec_injection_error_text(e: InjectionError) -> Seq<char> {
    match e {
        InjectionError::PermissionDenied => "the operating system denied synthetic input"@,
        InjectionError::NoFocusedTarget => "nothing holds keyboard focus"@,
        InjectionError::SubsystemUnavailable => "the input subsystem is unavailable"@,
    }
}

impl InjectionError {
    /// The stringified failure reason surfaced across the command
    /// boundary.
    pub fn message(&self) -> (r: String)
        ensures
            r@ == spec_injection_error_text(*self),
    {
        match self {
            InjectionError::PermissionDenied => String::from_str(
                "the operating system denied synthetic input",
            ),
            InjectionError::NoFocusedTarget => String::from_str("nothing holds keyboard focus"),
            InjectionError::SubsystemUnavailable => String::from_str(
                "the input subsystem is unavailable",
            ),
        }
    }
}

/// The characters a sequence of events types, in order: one character
/// per key-down, key-ups type nothing.
pub open spec fn typed_chars(events: Seq<InputEvent>) -> Seq<char>
    decreases events.len(),
{
    if events.len() == 0 {
        Seq::empty()
    } else {
        let rest = typed_chars(events.subrange(1, events.len() as int));
        match events[0] {
            InputEvent::KeyDown(c) => seq![c] + rest,
            InputEvent::KeyUp(c) => rest,
        }
    }
}

/// `typed_chars` distributes over concatenation.
pub proof fn lemma_typed_chars_concat(a: Seq<InputEvent>, b: Seq<InputEvent>)
    ensures
        typed_chars(a + b) == typed_chars(a) + typed_chars(b),
    decreases a.len(),
{
    if a.len() == 0 {
        assert(a + b =~= b);
        assert(typed_chars(a) + typed_chars(b) =~= typed_chars(b));
    } else {
        lemma_typed_chars_concat(a.subrange(1, a.len() as int), b);
        assert((a + b).subrange(1, (a + b).len() as int) =~= a.subrange(1, a.len() as int) + b);
        assert((a + b)[0] == a[0]);
        match a[0] {
            InputEvent::KeyDown(c) => {
                assert(typed_chars(a + b) =~= typed_chars(a) + typed_chars(b));
            },
            InputEvent::KeyUp(c) => {
                assert(typed_chars(a + b) =~= typed_chars(a) + typed_chars(b));
            },
        }
    }
}

/// The down/up pair that types one character.
pub proof fn lemma_typed_chars_pair(c: char)
    ensures
        typed_chars(seq![InputEvent::KeyDown(c), InputEvent::KeyUp(c)]) =~= seq![c],
{
    let pair = seq![InputEvent::KeyDown(c), InputEvent::KeyUp(c)];
    let up = pair.subrange(1, 2);
    assert(up =~= seq![InputEvent::KeyUp(c)]);
    assert(up.subrange(1, 1) =~= Seq::<InputEvent>::empty());
    assert(typed_chars(up.subrange(1, 1)) =~= Seq::<char>::empty());
    assert(typed_chars(up) =~= Seq::<char>::empty());
}

/// Plan the event sequence that spells `text`: a key-down/key-up pair
/// per character, in the order the characters appear.
pub fn plan_events(text: &str) -> (r: Vec<InputEvent>)
    ensures
        r@.len() == 2 * text@.len(),
        forall|i: int|
            0 <= i < text@.len() ==> r@[2 * i] == InputEvent::KeyDown(text@[i]) && r@[2 * i + 1]
                == InputEvent::KeyUp(text@[i]),
        typed_chars(r@) == text@,
{
    let n: usize = text.unicode_len();
    let mut r: Vec<InputEvent> = Vec::new();
    let mut i: usize = 0;
    proof {
        assert(typed_chars(r@) =~= text@.subrange(0, 0));
    }
    while i < n
        invariant
            i <= n,
            n == text@.len(),
            r@.len() == 2 * i,
            forall|k: int|
                0 <= k < i ==> r@[2 * k] == InputEvent::KeyDown(text@[k]) && r@[2 * k + 1]
                    == InputEvent::KeyUp(text@[k]),
            typed_chars(r@) == text@.subrange(0, i as int),
        decreases n - i,
    {
        let c = text.get_char(i);
        let ghost before = r@;
        r.push(InputEvent::KeyDown(c));
        r.push(InputEvent::KeyUp(c));
        proof {
            let pair = seq![InputEvent::KeyDown(c), InputEvent::KeyUp(c)];
            assert(r@ =~= before + pair);
            lemma_typed_chars_concat(before, pair);
            lemma_typed_chars_pair(c);
            assert(typed_chars(r@) =~= text@.subrange(0, i + 1));
        }
        i += 1;
    }
    proof {
        assert(text@.subrange(0, n as int) =~= text@);
    }
    r
}

/// The application that currently holds keyboard focus, as the injector
/// observes it: the characters it has received so far.
pub struct FocusTarget {
    received: Vec<char>,
}

impl FocusTarget {
    /// The characters received so far, in arrival order.
    pub closed spec fn spec_received(&self) -> Seq<char> {
        self.received@
    }

    /// A fresh target that has received nothing.
    pub fn new() -> (r: Self)
        ensures
            r.spec_received() == Seq::<char>::empty(),
    {
        FocusTarget { received: Vec::new() }
    }

    /// The characters received so far, in arrival order.
    pub fn received(&self) -> (r: &Vec<char>)
        ensures
            r@ == self.spec_received(),
    {
        &self.received
    }
}

/// Deliver every planned event to the target, in order.
fn apply_events(target: &mut FocusTarget, events: &Vec<InputEvent>)
    ensures
        final(target).spec_received() == old(target).spec_received() + typed_chars(events@),
{
    let mut i: usize = 0;
    let n: usize = events.len();
    proof {
        assert(old(target).spec_received() + typed_chars(events@.subrange(0, 0))
            =~= old(target).spec_received());
    }
    while i < n
        invariant
            i <= n,
            n == events@.len(),
            target.spec_received() == old(target).spec_received() + typed_chars(
                events@.subrange(0, i as int),
            ),
        decreases n - i,
    {
        let ghost done = events@.subrange(0, i as int);
        match events[i] {
            InputEvent::KeyDown(c) => {
                target.received.push(c);
            },
            InputEvent::KeyUp(_) => {},
        }
        proof {
            let step = seq![events@[i as int]];
            assert(events@.subrange(0, i + 1) =~= done + step);
            lemma_typed_chars_concat(done, step);
            assert(step.subrange(1, 1) =~= Seq::<InputEvent>::empty());
            assert(typed_chars(Seq::<InputEvent>::empty()) =~= Seq::<char>::empty());
            assert(target.spec_received() =~= old(target).spec_received() + typed_chars(
                events@.subrange(0, i + 1),
            ));
        }
        i += 1;
    }
    proof {
        assert(events@.subrange(0, n as int) =~= events@);
    }
}

/// Inject `text` at the current keyboard focus.
///
/// An empty text succeeds without synthesizing any event and without
/// asking the operating system anything. Otherwise `response` is the
/// operating system's verdict on the synthesis request: on `Accepted`
/// the target receives exactly `text`, in order, appended to what it
/// already had; on any other verdict the matching error is returned and
/// the target receives nothing.
pub fn inject(target: &mut FocusTarget, response: OsInputResponse, text: &str) -> (r: Result<
    (),
    InjectionError,
>)
    ensures
        r is Ok <==> (text@.len() == 0 || response == OsInputResponse::Accepted),
        text@.len() == 0 ==> *final(target) == *old(target),
        r is Ok && text@.len() > 0 ==> final(target).spec_received() == old(
            target,
        ).spec_received() + text@,
        r is Err ==> *final(target) == *old(target) && r == Result::<(), InjectionError>::Err(
            spec_failure_of(response),
        ),
{
    if text.unicode_len() == 0 {
        return Ok(());
    }
    match response {
        OsInputResponse::Accepted => {
            let events = plan_events(text);
            apply_events(target, &events);
            Ok(())
        },
        OsInputResponse::PermissionDenied => Err(InjectionError::PermissionDenied),
        OsInputResponse::NoFocusedTarget => Err(InjectionError::NoFocusedTarget),
        OsInputResponse::SubsystemUnavailable => Err(InjectionError::SubsystemUnavailable),
    }
}

/// The command surface of the injector: as [`inject`], with the failure
/// reason stringified for the process boundary.
pub fn simulate_keyboard_type(target: &mut FocusTarget, response: OsInputResponse, text: &str) -> (r:
    Result<(), String>)
    ensures
        r is Ok <==> (text@.len() == 0 || response == OsInputResponse::Accepted),
        text@.len() == 0 ==> *final(target) == *old(target),
        r is Ok && text@.len() > 0 ==> final(target).spec_received() == old(
            target,
        ).spec_received() + text@,
        r is Err ==> *final(target) == *old(target) && r->Err_0@ == spec_injection_error_text(
            spec_failure_of(response),
        ),
{
    match inject(target, response, text) {
        Ok(()) => Ok(()),
        Err(e) => Err(e.message()),
    }
}

} // verus!
