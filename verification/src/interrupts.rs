//! Handler registry and dispatcher: per-line ordered collections of
//! dynamically registered callbacks, invoked from trap entry points.
//!
//! Each hardware line owns an ordered map from registration sequence
//! number to handler; dispatch walks a line's handlers in ascending
//! sequence order and stops at the first that reports the event handled.
//!
//! Dispatch runs in interrupt context and must never deadlock against
//! preempted normal-context code, so every mutation of a line must
//! reduce to one effectively-atomic insert or remove of a single
//! entry — a torn observation is then at worst an entry present or
//! absent one step early, never a corrupted structure. The contracts
//! pin exactly that shape: `set_handler` appends one entry and
//! `remove_handler` takes one out.

use vstd::prelude::*;
use crate::Fatal;
use crate::pic::PicChain;
use crate::pic::spec_vector_of;

verus! {

/// CPU exceptions surfaced to the fatal path.
#[derive(Debug, Clone, Copy, PartialEq, Eq, Structural)]
pub enum Exception {
    DivideByZero,
}

/// A logical hardware interrupt line; the ordinal maps one to one onto
/// a controller vector offset.
#[derive(Debug, Clone, Copy, PartialEq, Eq, Structural)]
pub enum Interrupt {
    Timer,
    Keyboard,
}

impl Interrupt {
    /// Ordinal of the line, also its offset from the primary
    /// controller's vector base.
    pub open spec fn spec_ordinal(self) -> int {
        match self {
            Interrupt::Timer => 0,
            Interrupt::Keyboard => 1,
        }
    }

    pub fn ordinal(self) -> (i: usize)
        ensures
            i == self.spec_ordinal(),
    {
        match self {
            Interrupt::Timer => 0,
            Interrupt::Keyboard => 1,
        }
    }
}

/// Opaque revocation token for a registered handler: the registration
/// sequence number together with the owning line. Sequence numbers are
/// never reused for the registry's lifetime.
#[derive(Debug, Clone, Copy, PartialEq, Eq, Structural)]
pub struct HandlerId(pub u64, pub Interrupt);

/// A stateful callback: given the line, it reports `true` to stop
/// further dispatch for this event, `false` to let the next-registered
/// handler run. The variants are the closed set of callback shapes the
/// kernel's drivers need.
#[derive(Debug, Clone, Copy, PartialEq, Eq, Structural)]
pub enum Handler {
    /// Reports the fixed verdict `handled` on every event and counts
    /// its invocations.
    Probe { handled: bool, invocations: u64 },
    /// Consumes every event on its line, counting them; the shape of
    /// the tick-counting and scancode-consuming drivers.
    Counter { events: u64 },
}

pub open spec fn spec_saturating_inc(x: u64) -> u64 {
    if x == u64::MAX {
        x
    } else {
        (x + 1) as u64
    }
}

fn saturating_inc(x: u64) -> (r: u64)
    ensures
        r == spec_saturating_inc(x),
{
    if x == u64::MAX {
        x
    } else {
        x + 1
    }
}

impl Handler {
    /// The verdict this handler reports when invoked for `line`.
    pub open spec fn spec_handled(self, line: Interrupt) -> bool {
        match self {
            Handler::Probe { handled, .. } => handled,
            Handler::Counter { .. } => true,
        }
    }

    /// The handler's state after one invocation for `line`.
    pub open spec fn spec_after(self, line: Interrupt) -> Handler {
        match self {
            Handler::Probe { handled, invocations } => Handler::Probe {
                handled,
                invocations: spec_saturating_inc(invocations),
            },
            Handler::Counter { events } => Handler::Counter {
                events: spec_saturating_inc(events),
            },
        }
    }

    /// Run the callback once for `line`.
    pub fn invoke(&mut self, line: Interrupt) -> (handled: bool)
        ensures
            handled == old(self).spec_handled(line),
            *final(self) == old(self).spec_after(line),
    {
        let cur = *self;
        match cur {
            Handler::Probe { handled, invocations } => {
                *self = Handler::Probe { handled, invocations: saturating_inc(invocations) };
                handled
            }
            Handler::Counter { events } => {
                *self = Handler::Counter { events: saturating_inc(events) };
                true
            }
        }
    }
}

/// One registered callback with its registration sequence number.
#[derive(Debug, Clone, Copy, PartialEq, Eq, Structural)]
pub struct HandlerEntry {
    pub key: u64,
    pub handler: Handler,
}

/// Keys strictly increase along the sequence: registration order is
/// ascending sequence-number order, and keys are unique.
pub open spec fn keys_sorted(s: Seq<HandlerEntry>) -> bool {
    forall|i: int, j: int| 0 <= i < j < s.len() ==> s[i].key < s[j].key
}

/// Every key is below the bound (the next sequence number to hand out).
pub open spec fn keys_below(s: Seq<HandlerEntry>, bound: u64) -> bool {
    forall|i: int| 0 <= i < s.len() ==> s[i].key < bound
}

/// The handler stored under `key`, if any.
pub open spec fn lookup(s: Seq<HandlerEntry>, key: u64) -> Option<Handler>
    decreases s.len(),
{
    if s.len() == 0 {
        None
    } else if s[0].key == key {
        Some(s[0].handler)
    } else {
        lookup(s.subrange(1, s.len() as int), key)
    }
}

/// The sequence with the first entry keyed `key` removed; unchanged if
/// no entry has that key.
pub open spec fn remove_key(s: Seq<HandlerEntry>, key: u64) -> Seq<HandlerEntry>
    decreases s.len(),
{
    if s.len() == 0 {
        s
    } else if s[0].key == key {
        s.subrange(1, s.len() as int)
    } else {
        seq![s[0]] + remove_key(s.subrange(1, s.len() as int), key)
    }
}

/// The per-line registry of handlers, with the process-wide sequence
/// counter for fresh ids. One instance is constructed at boot and
/// passed by handle into every consumer.
#[derive(Debug)]
pub struct Registry {
    pub timer_line: Vec<HandlerEntry>,
    pub keyboard_line: Vec<HandlerEntry>,
    pub next_id: u64,
}

impl Registry {
    /// The ordered handler sequence of one line.
    pub open spec fn line_view(self, line: Interrupt) -> Seq<HandlerEntry> {
        match line {
            Interrupt::Timer => self.timer_line@,
            Interrupt::Keyboard => self.keyboard_line@,
        }
    }

    /// Well-formedness: each line is in ascending key order and every
    /// key is below the next id to be handed out.
    pub open spec fn wf(self) -> bool {
        &&& keys_sorted(self.timer_line@)
        &&& keys_sorted(self.keyboard_line@)
        &&& keys_below(self.timer_line@, self.next_id)
        &&& keys_below(self.keyboard_line@, self.next_id)
    }

    /// An empty registry; sequence numbers start at zero.
    pub fn new() -> (r: Registry)
        ensures
            r.wf(),
            r.next_id == 0,
            forall|l: Interrupt| #[trigger] r.line_view(l) == Seq::<HandlerEntry>::empty(),
    {
        Registry { timer_line: Vec::new(), keyboard_line: Vec::new(), next_id: 0 }
    }
}

/// Register `handler` against `interrupt`: a fresh id scoped to the
/// line is allocated and the callback is appended under it, keeping the
/// line in registration order.
pub fn set_handler(registry: &mut Registry, interrupt: Interrupt, handler: Handler) -> (id:
    HandlerId)
    requires
        old(registry).wf(),
        old(registry).next_id < u64::MAX,
    ensures
        final(registry).wf(),
        id == HandlerId(old(registry).next_id, interrupt),
        final(registry).next_id == old(registry).next_id + 1,
        final(registry).line_view(interrupt) == old(registry).line_view(interrupt).push(
            HandlerEntry { key: old(registry).next_id, handler },
        ),
        forall|l: Interrupt|
            l != interrupt ==> #[trigger] final(registry).line_view(l) == old(
                registry,
            ).line_view(l),
{
    let key = registry.next_id;
    registry.next_id = key + 1;
    let entry = HandlerEntry { key, handler };
    match interrupt {
        Interrupt::Timer => registry.timer_line.push(entry),
        Interrupt::Keyboard => registry.keyboard_line.push(entry),
    }
    HandlerId(key, interrupt)
}

/// Remove the entry keyed `key` from `line`, returning its handler;
/// `None`, with the line unchanged, if no entry has that key.
fn remove_from_line(line: &mut Vec<HandlerEntry>, key: u64) -> (r: Option<Handler>)
    ensures
        final(line)@ == remove_key(old(line)@, key),
        r == lookup(old(line)@, key),
{
    let ghost s = line@;
    let n = line.len();
    let mut i: usize = 0;
    while i < n
        invariant
            s == old(line)@,
            line@ == s,
            n == s.len(),
            i <= n,
            forall|j: int| 0 <= j < i ==> s[j].key != key,
        decreases n - i,
    {
        if line[i].key == key {
            let entry = line.remove(i);
            proof {
                lemma_remove_key_at(s, key, i as int);
            }
            return Some(entry.handler);
        }
        i += 1;
    }
    proof {
        lemma_remove_key_absent(s, key);
    }
    None
}

/// Remove and return the callback registered under `id`, if present;
/// an empty result otherwise. Idempotent: once the callback is gone,
/// every later call with the same id returns `None`.
pub fn remove_handler(registry: &mut Registry, id: HandlerId) -> (r: Option<Handler>)
    requires
        old(registry).wf(),
    ensures
        final(registry).wf(),
        final(registry).next_id == old(registry).next_id,
        r == lookup(old(registry).line_view(id.1), id.0),
        final(registry).line_view(id.1) == remove_key(old(registry).line_view(id.1), id.0),
        forall|l: Interrupt|
            l != id.1 ==> #[trigger] final(registry).line_view(l) == old(registry).line_view(l),
{
    proof {
        lemma_remove_key_keeps_order(old(registry).line_view(id.1), id.0, old(registry).next_id);
    }
    match id.1 {
        Interrupt::Timer => remove_from_line(&mut registry.timer_line, id.0),
        Interrupt::Keyboard => remove_from_line(&mut registry.keyboard_line, id.0),
    }
}

/// Surface a CPU exception as the fatal condition it is; the embedder
/// aborts on the returned value, since the kernel has no supervisor to
/// recover it.
pub fn emit_exception(exception: Exception) -> (f: Fatal)
    ensures
        f == Fatal::Exception(exception),
{
    Fatal::Exception(exception)
}

/// Index of the first handler in `s` that claims an event on `line`;
/// `s.len()` if none claims it.
pub open spec fn first_claim(s: Seq<HandlerEntry>, line: Interrupt) -> int
    decreases s.len(),
{
    if s.len() == 0 {
        0
    } else if s[0].handler.spec_handled(line) {
        0
    } else {
        1 + first_claim(s.subrange(1, s.len() as int), line)
    }
}

/// How many handlers one dispatch on `line` invokes: every handler up
/// to and including the first that claims the event, or all of them.
pub open spec fn invoked_count(s: Seq<HandlerEntry>, line: Interrupt) -> int {
    if first_claim(s, line) < s.len() {
        first_claim(s, line) + 1
    } else {
        s.len() as int
    }
}

/// The line after one dispatch: each invoked handler stepped once, the
/// rest untouched.
pub open spec fn dispatch_result(s: Seq<HandlerEntry>, line: Interrupt) -> Seq<HandlerEntry> {
    Seq::new(
        s.len(),
        |i: int|
            if i < invoked_count(s, line) {
                HandlerEntry { key: s[i].key, handler: s[i].handler.spec_after(line) }
            } else {
                s[i]
            },
    )
}

/// Walk the line's handlers in order, stopping at the first claim.
fn dispatch_line(line_vec: &mut Vec<HandlerEntry>, line: Interrupt)
    ensures
        final(line_vec)@ == dispatch_result(old(line_vec)@, line),
{
    let ghost s = line_vec@;
    let n = line_vec.len();
    let mut i: usize = 0;
    let mut claimed = false;
    while i < n && !claimed
        invariant
            n == s.len(),
            line_vec@.len() == n,
            i <= n,
            forall|j: int| i <= j < n ==> line_vec@[j] == s[j],
            forall|j: int|
                0 <= j < i ==> line_vec@[j] == (HandlerEntry {
                    key: s[j].key,
                    handler: s[j].handler.spec_after(line),
                }),
            !claimed ==> forall|j: int| 0 <= j < i ==> !s[j].handler.spec_handled(line),
            claimed ==> i >= 1 && first_claim(s, line) == i - 1,
        decreases n - i,
    {
        let entry = &mut line_vec[i];
        let handled = entry.handler.invoke(line);
        if handled {
            claimed = true;
            proof {
                lemma_first_claim_pins(s, line, i as int);
            }
        }
        i += 1;
    }
    proof {
        lemma_first_claim_bounds(s, line);
        if !claimed {
            lemma_first_claim_pins_none(s, line);
        }
        assert(final(line_vec)@ =~= dispatch_result(s, line));
    }
}

/// Dispatch one hardware event on `line`: invoke the line's handlers
/// in ascending registration order, stopping at the first that claims
/// it, then acknowledge the controller exactly once — strictly after
/// all callbacks have run, and regardless of how many ran.
pub fn emit_interrupt(registry: &mut Registry, pics: &mut PicChain, interrupt: Interrupt)
    requires
        old(registry).wf(),
        old(pics).wf(),
        old(pics).initialised,
    ensures
        final(registry).wf(),
        final(registry).next_id == old(registry).next_id,
        final(registry).line_view(interrupt) == dispatch_result(
            old(registry).line_view(interrupt),
            interrupt,
        ),
        forall|l: Interrupt|
            l != interrupt ==> #[trigger] final(registry).line_view(l) == old(
                registry,
            ).line_view(l),
        final(pics).wf(),
        final(pics).initialised,
        final(pics).acknowledged@ == old(pics).acknowledged@.push(spec_vector_of(interrupt)),
{
    proof {
        lemma_dispatch_keeps_keys(old(registry).line_view(interrupt), interrupt);
    }
    match interrupt {
        Interrupt::Timer => dispatch_line(&mut registry.timer_line, interrupt),
        Interrupt::Keyboard => dispatch_line(&mut registry.keyboard_line, interrupt),
    }
    let vector = crate::pic::vector_of(interrupt);
    pics.notify_end_of_interrupt(vector);
}

proof fn lemma_remove_key_at(s: Seq<HandlerEntry>, key: u64, i: int)
    requires
        0 <= i < s.len(),
        s[i].key == key,
        forall|j: int| 0 <= j < i ==> s[j].key != key,
    ensures
        remove_key(s, key) == s.subrange(0, i) + s.subrange(i + 1, s.len() as int),
        lookup(s, key) == Some(s[i].handler),
    decreases i,
{
    if i == 0 {
        assert(remove_key(s, key) =~= s.subrange(0, 0) + s.subrange(1, s.len() as int));
    } else {
        let t = s.subrange(1, s.len() as int);
        lemma_remove_key_at(t, key, i - 1);
        assert(t.subrange(0, i - 1) =~= s.subrange(1, i));
        assert(t.subrange(i, t.len() as int) =~= s.subrange(i + 1, s.len() as int));
        assert(remove_key(s, key) =~= s.subrange(0, i) + s.subrange(i + 1, s.len() as int));
    }
}

proof fn lemma_remove_key_absent(s: Seq<HandlerEntry>, key: u64)
    requires
        forall|j: int| 0 <= j < s.len() ==> s[j].key != key,
    ensures
        remove_key(s, key) == s,
        lookup(s, key) is None,
    decreases s.len(),
{
    if s.len() > 0 {
        let t = s.subrange(1, s.len() as int);
        lemma_remove_key_absent(t, key);
        assert(remove_key(s, key) =~= s);
    }
}

/// Removal keeps ascending key order and any key bound.
proof fn lemma_remove_key_keeps_order(s: Seq<HandlerEntry>, key: u64, bound: u64)
    requires
        keys_sorted(s),
        keys_below(s, bound),
    ensures
        keys_sorted(remove_key(s, key)),
        keys_below(remove_key(s, key), bound),
    decreases s.len(),
{
    if s.len() > 0 && s[0].key != key {
        let t = s.subrange(1, s.len() as int);
        lemma_remove_key_keeps_order(t, key, bound);
        let r = seq![s[0]] + remove_key(t, key);
        assert forall|i: int, j: int| 0 <= i < j < r.len() implies r[i].key < r[j].key by {
            if i == 0 {
                lemma_remove_key_members(t, key, j - 1);
            } else {
                assert(r[i] == remove_key(t, key)[i - 1]);
            }
        }
    }
}

/// Every entry of the removal result is an entry of the original.
proof fn lemma_remove_key_members(s: Seq<HandlerEntry>, key: u64, i: int)
    requires
        0 <= i < remove_key(s, key).len(),
    ensures
        exists|j: int| 0 <= j < s.len() && s[j] == remove_key(s, key)[i],
    decreases s.len(),
{
    if s.len() > 0 {
        if s[0].key == key {
            assert(s[i + 1] == remove_key(s, key)[i]);
        } else if i == 0 {
            assert(s[0] == remove_key(s, key)[0]);
        } else {
            let t = s.subrange(1, s.len() as int);
            lemma_remove_key_members(t, key, i - 1);
            let j = choose|j: int| 0 <= j < t.len() && t[j] == remove_key(t, key)[i - 1];
            assert(s[j + 1] == remove_key(s, key)[i]);
        }
    }
}

/// Bounds and pointwise facts of `first_claim`.
proof fn lemma_first_claim_bounds(s: Seq<HandlerEntry>, line: Interrupt)
    ensures
        0 <= first_claim(s, line) <= s.len(),
        forall|j: int| 0 <= j < first_claim(s, line) ==> !s[j].handler.spec_handled(line),
        first_claim(s, line) < s.len() ==> s[first_claim(s, line)].handler.spec_handled(line),
    decreases s.len(),
{
    if s.len() > 0 && !s[0].handler.spec_handled(line) {
        let t = s.subrange(1, s.len() as int);
        lemma_first_claim_bounds(t, line);
        assert forall|j: int| 0 <= j < first_claim(s, line) implies !s[j].handler.spec_handled(
            line,
        ) by {
            if j > 0 {
                assert(s[j] == t[j - 1]);
            }
        }
        if first_claim(s, line) < s.len() {
            assert(s[first_claim(s, line)] == t[first_claim(t, line)]);
        }
    }
}

/// If no handler before `i` claims and the one at `i` does, the first
/// claim is exactly at `i`.
proof fn lemma_first_claim_pins(s: Seq<HandlerEntry>, line: Interrupt, i: int)
    requires
        0 <= i < s.len(),
        forall|j: int| 0 <= j < i ==> !s[j].handler.spec_handled(line),
        s[i].handler.spec_handled(line),
    ensures
        first_claim(s, line) == i,
    decreases i,
{
    if i > 0 {
        lemma_first_claim_pins(s.subrange(1, s.len() as int), line, i - 1);
    }
}

/// If no handler claims, the first claim index is the length.
proof fn lemma_first_claim_pins_none(s: Seq<HandlerEntry>, line: Interrupt)
    requires
        forall|j: int| 0 <= j < s.len() ==> !s[j].handler.spec_handled(line),
    ensures
        first_claim(s, line) == s.len(),
    decreases s.len(),
{
    if s.len() > 0 {
        lemma_first_claim_pins_none(s.subrange(1, s.len() as int), line);
    }
}

/// Dispatch changes no keys, so it keeps order and bounds.
proof fn lemma_dispatch_keeps_keys(s: Seq<HandlerEntry>, line: Interrupt)
    ensures
        dispatch_result(s, line).len() == s.len(),
        forall|i: int| 0 <= i < s.len() ==> #[trigger] dispatch_result(s, line)[i].key == s[i].key,
{
}

/// Law: removal is idempotent. On a line with strictly ascending keys,
/// once the entry keyed `key` is removed, the key is gone — a later
/// lookup finds nothing and a later removal changes nothing.
pub proof fn lemma_remove_idempotent(s: Seq<HandlerEntry>, key: u64)
    requires
        keys_sorted(s),
    ensures
        lookup(remove_key(s, key), key) is None,
        remove_key(remove_key(s, key), key) == remove_key(s, key),
    decreases s.len(),
{
    if s.len() == 0 {
    } else if s[0].key == key {
        let t = s.subrange(1, s.len() as int);
        assert forall|j: int| 0 <= j < t.len() implies t[j].key != key by {
            assert(t[j] == s[j + 1]);
        }
        lemma_remove_key_absent(t, key);
    } else {
        let t = s.subrange(1, s.len() as int);
        assert(keys_sorted(t)) by {
            assert forall|i: int, j: int| 0 <= i < j < t.len() implies t[i].key < t[j].key by {
                assert(t[i] == s[i + 1]);
                assert(t[j] == s[j + 1]);
            }
        }
        lemma_remove_idempotent(t, key);
        let r = seq![s[0]] + remove_key(t, key);
        assert(remove_key(s, key) == r);
        assert(r[0] == s[0]);
        assert(r.subrange(1, r.len() as int) =~= remove_key(t, key));
        assert(lookup(r, key) == lookup(remove_key(t, key), key));
        assert(remove_key(r, key) == seq![r[0]] + remove_key(
            r.subrange(1, r.len() as int),
            key,
        ));
        assert(remove_key(r, key) =~= r);
    }
}

/// Law: one dispatch on a line invokes exactly a prefix of that line's
/// handlers — in strictly ascending registration-id order — stopping
/// at the first that claims the event: every earlier invoked handler
/// reported not handled, the stopping handler reported handled, and
/// every handler past the stopping point is untouched.
pub proof fn lemma_dispatch_order(s: Seq<HandlerEntry>, line: Interrupt)
    requires
        keys_sorted(s),
    ensures
        0 <= invoked_count(s, line) <= s.len(),
        dispatch_result(s, line).len() == s.len(),
        forall|i: int|
            0 <= i < invoked_count(s, line) ==> #[trigger] dispatch_result(s, line)[i]
                == (HandlerEntry { key: s[i].key, handler: s[i].handler.spec_after(line) }),
        forall|i: int|
            invoked_count(s, line) <= i < s.len() ==> #[trigger] dispatch_result(s, line)[i]
                == s[i],
        forall|i: int|
            0 <= i < invoked_count(s, line) - 1 ==> !(#[trigger] s[i].handler.spec_handled(line)),
        invoked_count(s, line) < s.len() ==> s[invoked_count(s, line)
            - 1].handler.spec_handled(line),
        forall|i: int, j: int| 0 <= i < j < invoked_count(s, line) ==> s[i].key < s[j].key,
{
    lemma_first_claim_bounds(s, line);
}

/// One driver-facing registry operation, for replaying a whole call
/// sequence against the ordered-map simulation.
#[derive(Debug, Clone, Copy, PartialEq, Eq, Structural)]
pub enum RegistryOp {
    Register(Interrupt, Handler),
    Unregister(HandlerId),
}

/// The ordered-map simulation of one operation on the model state:
/// the two lines and the next fresh sequence number.
pub open spec fn step_op(
    timer: Seq<HandlerEntry>,
    keyboard: Seq<HandlerEntry>,
    next_id: u64,
    op: RegistryOp,
) -> (Seq<HandlerEntry>, Seq<HandlerEntry>, u64) {
    match op {
        RegistryOp::Register(line, handler) => {
            let entry = HandlerEntry { key: next_id, handler };
            match line {
                Interrupt::Timer => (timer.push(entry), keyboard, (next_id + 1) as u64),
                Interrupt::Keyboard => (timer, keyboard.push(entry), (next_id + 1) as u64),
            }
        }
        RegistryOp::Unregister(id) => match id.1 {
            Interrupt::Timer => (remove_key(timer, id.0), keyboard, next_id),
            Interrupt::Keyboard => (timer, remove_key(keyboard, id.0), next_id),
        },
    }
}

/// The simulation of a whole operation sequence, first operation
/// first.
pub open spec fn apply_ops(
    timer: Seq<HandlerEntry>,
    keyboard: Seq<HandlerEntry>,
    next_id: u64,
    ops: Seq<RegistryOp>,
) -> (Seq<HandlerEntry>, Seq<HandlerEntry>, u64)
    decreases ops.len(),
{
    if ops.len() == 0 {
        (timer, keyboard, next_id)
    } else {
        let stepped = step_op(timer, keyboard, next_id, ops[0]);
        apply_ops(stepped.0, stepped.1, stepped.2, ops.subrange(1, ops.len() as int))
    }
}

/// Law: a sequence of register/unregister calls with no interleaved
/// dispatch leaves the registry in exactly the state of the
/// straightforward ordered-map simulation of those calls, in program
/// order.
pub fn run_ops(registry: &mut Registry, ops: &Vec<RegistryOp>)
    requires
        old(registry).wf(),
        old(registry).next_id + ops@.len() <= u64::MAX,
    ensures
        final(registry).wf(),
        (final(registry).timer_line@, final(registry).keyboard_line@, final(registry).next_id)
            == apply_ops(
            old(registry).timer_line@,
            old(registry).keyboard_line@,
            old(registry).next_id,
            ops@,
        ),
{
    let n = ops.len();
    proof {
        assert(ops@.subrange(0, n as int) =~= ops@);
    }
    let mut i: usize = 0;
    while i < n
        invariant
            registry.wf(),
            n == ops@.len(),
            i <= n,
            old(registry).next_id + n <= u64::MAX,
            registry.next_id <= old(registry).next_id + i,
            apply_ops(
                registry.timer_line@,
                registry.keyboard_line@,
                registry.next_id,
                ops@.subrange(i as int, n as int),
            ) == apply_ops(
                old(registry).timer_line@,
                old(registry).keyboard_line@,
                old(registry).next_id,
                ops@,
            ),
        decreases n - i,
    {
        let ghost pre = *registry;
        let ghost rest = ops@.subrange(i as int, n as int);
        let op = ops[i];
        match op {
            RegistryOp::Register(line, handler) => {
                let _ = set_handler(registry, line, handler);
            }
            RegistryOp::Unregister(id) => {
                let _ = remove_handler(registry, id);
            }
        }
        proof {
            match op {
                RegistryOp::Register(line, _handler) => match line {
                    Interrupt::Timer => {
                        assert(registry.line_view(Interrupt::Keyboard) == pre.line_view(
                            Interrupt::Keyboard,
                        ));
                    }
                    Interrupt::Keyboard => {
                        assert(registry.line_view(Interrupt::Timer) == pre.line_view(
                            Interrupt::Timer,
                        ));
                    }
                },
                RegistryOp::Unregister(id) => match id.1 {
                    Interrupt::Timer => {
                        assert(registry.line_view(Interrupt::Keyboard) == pre.line_view(
                            Interrupt::Keyboard,
                        ));
                    }
                    Interrupt::Keyboard => {
                        assert(registry.line_view(Interrupt::Timer) == pre.line_view(
                            Interrupt::Timer,
                        ));
                    }
                },
            }
            assert((registry.timer_line@, registry.keyboard_line@, registry.next_id) == step_op(
                pre.timer_line@,
                pre.keyboard_line@,
                pre.next_id,
                op,
            ));
            assert(rest[0] == ops@[i as int]);
            assert(rest.subrange(1, rest.len() as int) =~= ops@.subrange(i as int + 1, n as int));
        }
        i += 1;
    }
    proof {
        assert(ops@.subrange(n as int, n as int) =~= Seq::<RegistryOp>::empty());
    }
}

} // verus!
