//! The shared gauge cell: the one word of state that the sampler writes and
//! every responder reads.

use vstd::prelude::*;

verus! {

/// Value of the gauge before anything has been published.
pub const GAUGE_DEFAULT: u16 = 0;

/// The latest sensor reading.
///
/// The storage is private: the only way to change it is `publish`, which
/// takes `&mut self`, so a gauge has a single writer at any time and readers
/// see whole values only. There is no queue and no history.
#[derive(Debug)]
pub struct Gauge {
    value: u16,
}

impl View for Gauge {
    type V = u16;

    closed spec fn view(&self) -> u16 {
        self.value
    }
}

impl Gauge {
    /// A gauge that holds the default.
    pub fn new() -> (gauge: Gauge)
        ensures
            gauge@ == GAUGE_DEFAULT,
    {
        Gauge { value: GAUGE_DEFAULT }
    }

    /// Stores `value`; nothing of the previous reading is kept.
    pub fn publish(&mut self, value: u16)
        ensures
            final(self)@ == value,
    {
        self.value = value;
    }

    /// The latest published value, or the default if there was none.
    pub fn read(&self) -> (value: u16)
        ensures
            value == self@,
    {
        self.value
    }
}

/// One access to the gauge by some task. Tasks run one at a time and give
/// way only between accesses, so what they do to the gauge in any
/// interleaving is a sequence of whole accesses.
#[derive(Clone, Copy, Debug, PartialEq, Eq, Structural)]
pub enum Access {
    /// `publish` with this value.
    Publish(u16),
    /// `read`.
    Read,
}

/// What a gauge that held `start` holds after `accesses`: a read changes
/// nothing, a publish replaces the value.
pub open spec fn held_after(start: u16, accesses: Seq<Access>) -> u16
    decreases accesses.len(),
{
    if accesses.len() == 0 {
        start
    } else {
        match accesses.last() {
            Access::Publish(value) => value,
            Access::Read => held_after(start, accesses.drop_last()),
        }
    }
}

/// Whatever the order in which tasks published and read, a read that comes
/// next sees the value of the latest publish, or the value the gauge started
/// with if nothing was published: never anything else.
pub proof fn lemma_read_sees_latest_publish(start: u16, accesses: Seq<Access>)
    ensures
        ({
            let seen = held_after(start, accesses);
            ||| seen == start && forall|i: int|
                0 <= i < accesses.len() ==> #[trigger] accesses[i] is Read
            ||| exists|i: int|
                0 <= i < accesses.len() && #[trigger] accesses[i] == Access::Publish(seen)
                    && forall|k: int| i < k < accesses.len() ==> #[trigger] accesses[k] is Read
        }),
    decreases accesses.len(),
{
    if accesses.len() > 0 {
        let earlier = accesses.drop_last();
        let last = accesses.len() - 1;
        let seen = held_after(start, accesses);
        match accesses.last() {
            Access::Publish(value) => {
                assert(accesses[last] == Access::Publish(seen));
            },
            Access::Read => {
                lemma_read_sees_latest_publish(start, earlier);
                assert(forall|i: int| 0 <= i < earlier.len() ==> earlier[i] == accesses[i]);
                if !(seen == start && forall|i: int|
                    0 <= i < earlier.len() ==> #[trigger] earlier[i] is Read) {
                    let i = choose|i: int|
                        0 <= i < earlier.len() && #[trigger] earlier[i] == Access::Publish(seen)
                            && forall|k: int|
                            i < k < earlier.len() ==> #[trigger] earlier[k] is Read;
                    assert(accesses[i] == Access::Publish(seen));
                    assert(forall|k: int| i < k < accesses.len() ==> #[trigger] accesses[k] is Read);
                }
            },
        }
    }
}

} // verus!
