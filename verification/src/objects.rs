//! Two classes written in the class language, `Counter` and `Signaler`:
//! the private data of each instance, its constructor, and the methods that
//! read and update it, as the code generated for these classes runs them.

use vstd::prelude::*;

verus! {

// ---------------------------------------------------------------------------
// Counter
// ---------------------------------------------------------------------------

/// The private data of a `Counter`: the running total.
pub struct CounterPrivate {
    pub f: u32,
}

impl CounterPrivate {
    /// Every field starts at its default value.
    pub fn new() -> (r: Self)
        ensures
            r.f == 0,
    {
        CounterPrivate { f: 0 }
    }
}

/// A counter: `add(x)` adds `x` to the total and returns the new total;
/// `get()` returns the total.
pub struct Counter {
    pub private: CounterPrivate,
}

impl View for Counter {
    type V = u32;

    open spec fn view(&self) -> u32 {
        self.private.f
    }
}

impl Counter {
    /// A new counter, whose total is 0.
    pub fn new() -> (r: Counter)
        ensures
            r@ == 0,
    {
        Counter { private: CounterPrivate::new() }
    }

    fn add_impl(&mut self, x: u32) -> (r: u32)
        requires
            old(self)@ + x <= u32::MAX,
        ensures
            r == old(self)@ + x,
            final(self)@ == r,
    {
        let v = self.private.f + x;
        self.private.f = v;
        v
    }

    fn get_impl(&self) -> (r: u32)
        ensures
            r == self@,
    {
        self.private.f
    }
}

/// The methods of a counter.
pub trait CounterExt {
    /// The current total.
    spec fn total(&self) -> u32;

    /// Adds `x` to the total and returns the new total.
    fn add(&mut self, x: u32) -> (r: u32)
        requires
            old(self).total() + x <= u32::MAX,
        ensures
            r == old(self).total() + x,
            final(self).total() == r;

    /// Returns the total.
    fn get(&self) -> (r: u32)
        ensures
            r == self.total();
}

impl CounterExt for Counter {
    open spec fn total(&self) -> u32 {
        self@
    }

    fn add(&mut self, x: u32) -> (r: u32) {
        counter_add(self, x)
    }

    fn get(&self) -> (r: u32) {
        counter_get(self)
    }
}

/// `counter_new()`: a new counter.
pub fn counter_new() -> (r: Counter)
    ensures
        r@ == 0,
{
    Counter::new()
}

/// `counter_add()`: adds `x` to the counter's total, returns the new total.
pub fn counter_add(this: &mut Counter, x: u32) -> (r: u32)
    requires
        old(this)@ + x <= u32::MAX,
    ensures
        r == old(this)@ + x,
        final(this)@ == r,
{
    this.add_impl(x)
}

/// `counter_get()`: the counter's total.
pub fn counter_get(this: &Counter) -> (r: u32)
    ensures
        r == this@,
{
    this.get_impl()
}

/// The sum of `xs`.
pub open spec fn sum_of(xs: Seq<u32>) -> int
    decreases xs.len(),
{
    if xs.len() == 0 {
        0
    } else {
        sum_of(xs.drop_last()) + xs.last()
    }
}

/// A counter's total is the sum of all that was added to it since it was
/// made: `states` are a new counter and the counter after each call of
/// `add` with the values `xs`, as the contracts of `Counter::new` and
/// `CounterExt::add` relate them.
pub proof fn law_counter_total_is_sum(states: Seq<Counter>, xs: Seq<u32>)
    requires
        states.len() == xs.len() + 1,
        states[0]@ == 0,
        forall|i: int| 0 <= i < xs.len() ==> (#[trigger] states[i + 1]).total() == states[i].total() + xs[i],
    ensures
        states.last().total() == sum_of(xs),
        forall|k: int| 0 <= k <= xs.len() ==> #[trigger] states[k].total() == sum_of(xs.subrange(0, k)),
    decreases xs.len(),
{
    if xs.len() > 0 {
        let n = xs.len() - 1;
        let front = states.subrange(0, n + 1);
        law_counter_total_is_sum(front, xs.drop_last());
        assert forall|k: int| 0 <= k <= xs.len() implies #[trigger] states[k].total() == sum_of(xs.subrange(0, k)) by {
            if k < xs.len() {
                assert(front[k] == states[k]);
                assert(xs.drop_last().subrange(0, k) =~= xs.subrange(0, k));
            } else {
                assert(front.last() == states[n]);
                assert(xs.subrange(0, k).drop_last() =~= xs.drop_last());
                assert(xs.drop_last().subrange(0, n) =~= xs.drop_last());
            }
        }
        assert(xs.subrange(0, xs.len() as int) =~= xs);
    } else {
        assert(xs.subrange(0, 0) =~= xs);
    }
}

// ---------------------------------------------------------------------------
// Signaler
// ---------------------------------------------------------------------------

/// The private data of a `Signaler`: the value last set.
pub struct SignalerPrivate {
    pub val: u32,
}

impl SignalerPrivate {
    /// Every field starts at its default value.
    pub fn new() -> (r: Self)
        ensures
            r.val == 0,
    {
        SignalerPrivate { val: 0 }
    }
}

/// A cell holding a value: `set_value(v)` stores `v`, `get_value()` returns
/// the value last stored.
pub struct Signaler {
    pub private: SignalerPrivate,
}

impl View for Signaler {
    type V = u32;

    open spec fn view(&self) -> u32 {
        self.private.val
    }
}

impl Signaler {
    /// A new signaler, whose value is 0.
    pub fn new() -> (r: Signaler)
        ensures
            r@ == 0,
    {
        Signaler { private: SignalerPrivate::new() }
    }

    fn set_value_impl(&mut self, v: u32)
        ensures
            final(self)@ == v,
    {
        self.private.val = v;
    }

    fn get_value_impl(&self) -> (r: u32)
        ensures
            r == self@,
    {
        self.private.val
    }
}

/// The methods of a signaler.
pub trait SignalerExt {
    /// The value last stored.
    spec fn value(&self) -> u32;

    /// Stores `v`.
    fn set_value(&mut self, v: u32)
        ensures
            final(self).value() == v;

    /// Returns the value last stored.
    fn get_value(&self) -> (r: u32)
        ensures
            r == self.value();
}

impl SignalerExt for Signaler {
    open spec fn value(&self) -> u32 {
        self@
    }

    fn set_value(&mut self, v: u32) {
        signaler_set_value(self, v)
    }

    fn get_value(&self) -> (r: u32) {
        signaler_get_value(self)
    }
}

/// The value last stored in a signaler, or 0 when nothing was stored since
/// it was made.
pub open spec fn last_stored(vs: Seq<u32>) -> u32 {
    if vs.len() == 0 {
        0
    } else {
        vs.last()
    }
}

/// What is read from a signaler is what was last stored in it: `states`
/// are a new signaler and the signaler after each call of `set_value` with
/// the values `vs`, as the contracts of `Signaler::new` and
/// `SignalerExt::set_value` relate them; `get_value` returns `value()` of
/// the state it is called on.
pub proof fn law_signaler_reads_last_write(states: Seq<Signaler>, vs: Seq<u32>)
    requires
        states.len() == vs.len() + 1,
        states[0]@ == 0,
        forall|i: int| 0 <= i < vs.len() ==> (#[trigger] states[i + 1]).value() == vs[i],
    ensures
        forall|k: int| 0 <= k <= vs.len() ==> #[trigger] states[k].value() == last_stored(vs.subrange(0, k)),
{
    assert forall|k: int| 0 <= k <= vs.len() implies #[trigger] states[k].value() == last_stored(vs.subrange(0, k)) by {
        if k > 0 {
            assert(states[(k - 1) + 1].value() == vs[k - 1]);
            assert(vs.subrange(0, k).last() == vs[k - 1]);
        }
    }
}

/// `signaler_new()`: a new signaler.
pub fn signaler_new() -> (r: Signaler)
    ensures
        r@ == 0,
{
    Signaler::new()
}

/// `signaler_set_value()`: stores `v`.
pub fn signaler_set_value(this: &mut Signaler, v: u32)
    ensures
        final(this)@ == v,
{
    this.set_value_impl(v)
}

/// `signaler_get_value()`: the value last stored.
pub fn signaler_get_value(this: &Signaler) -> (r: u32)
    ensures
        r == this@,
{
    this.get_value_impl()
}

} // verus!
