use vstd::prelude::*;

use crate::behavior_module::spec_sleep_budget;
use crate::meta_signals::{
    inhib_or_default, spec_activity, spec_potential, stim_or_default, MetaSignal, META_SCALE,
};
use crate::port::{pass_target, PortCell, PortHub};

verus! {

/// Port propagation, first half: in a chain `p0 <- p1 <- ... <- pn` where
/// each later port is a passthrough onto the one before it, every port's
/// chain ends at the same buffer cell.
pub proof fn lemma_chain_terminus<T>(hub: PortHub<T>, chain: Seq<int>)
    requires
        hub.wf(),
        hub@.len() <= usize::MAX,
        chain.len() >= 1,
        forall|i: int| 0 <= i < chain.len() ==> 0 <= #[trigger] chain[i] < hub@.len(),
        forall|i: int|
            1 <= i < chain.len() ==> hub@[#[trigger] chain[i]] == PortCell::<T>::Passthrough(
                chain[i - 1] as usize,
            ),
    ensures
        forall|i: int|
            0 <= i < chain.len() ==> hub.terminus(#[trigger] chain[i]) == hub.terminus(chain[0]),
    decreases chain.len(),
{
    if chain.len() > 1 {
        let prefix = chain.drop_last();
        lemma_chain_terminus(hub, prefix);
        let i = chain.len() - 1;
        hub.lemma_edge_terminus(chain[i]);
        assert(pass_target(hub@[chain[i]]) == chain[i - 1]);
        assert forall|j: int|
            0 <= j < chain.len() implies hub.terminus(#[trigger] chain[j]) == hub.terminus(
            chain[0],
        ) by {
            assert(prefix[0] == chain[0]);
            if j < chain.len() - 1 {
                assert(prefix[j] == chain[j]);
            } else {
                assert(prefix[i - 1] == chain[i - 1]);
                assert(hub.terminus(prefix[i - 1]) == hub.terminus(prefix[0]));
            }
        }
    }
}

/// Port propagation, second half: after one send of `v` anywhere on such a
/// chain, the value stored at every port of the chain is `v`, so every read
/// along the chain yields `v`. The hypotheses are exactly what a send's
/// contract gives: the cells after the send are the cells before with the
/// sender's terminus overwritten, and no chain has moved.
pub proof fn lemma_chain_propagation<T>(
    before: PortHub<T>,
    after: PortHub<T>,
    chain: Seq<int>,
    sender: int,
    v: T,
)
    requires
        before.wf(),
        before@.len() <= usize::MAX,
        chain.len() >= 1,
        forall|i: int| 0 <= i < chain.len() ==> 0 <= #[trigger] chain[i] < before@.len(),
        forall|i: int|
            1 <= i < chain.len() ==> before@[#[trigger] chain[i]] == PortCell::<T>::Passthrough(
                chain[i - 1] as usize,
            ),
        0 <= sender < chain.len(),
        after@ == before@.update(
            before.terminus(chain[sender]),
            PortCell::Buffer(Some(v)),
        ),
        forall|k: int|
            0 <= k < before@.len() ==> #[trigger] after.terminus(k) == before.terminus(k),
    ensures
        forall|i: int| 0 <= i < chain.len() ==> #[trigger] after.stored(chain[i]) == Some(v),
{
    lemma_chain_terminus(before, chain);
    let t = before.terminus(chain[0]);
    before.lemma_terminus_in_range(chain[0]);
    assert forall|i: int|
        0 <= i < chain.len() implies #[trigger] after.stored(chain[i]) == Some(v) by {
        assert(before.terminus(chain[i]) == t);
        assert(after.terminus(chain[i]) == t);
        assert(after@[t] == PortCell::<T>::Buffer(Some(v)));
    }
}

/// Meta-signal clamping: for inputs in [0, 1], the potential and the
/// activity stay in [0, 1], and the activity never exceeds the stimulation,
/// the negated inhibition, or the target rating.
pub proof fn lemma_meta_clamping(
    stimulation: Option<MetaSignal>,
    inhibition: Option<MetaSignal>,
    target: MetaSignal,
)
    requires
        0 <= stim_or_default(stimulation) <= META_SCALE,
        0 <= inhib_or_default(inhibition) <= META_SCALE,
        0 <= target.value() <= META_SCALE,
    ensures
        ({
            let potential = spec_potential(
                stim_or_default(stimulation),
                inhib_or_default(inhibition),
            );
            let activity = spec_activity(potential, target.value());
            &&& 0 <= potential <= META_SCALE
            &&& 0 <= activity <= META_SCALE
            &&& activity <= stim_or_default(stimulation)
            &&& activity <= META_SCALE - inhib_or_default(inhibition)
            &&& activity <= target.value()
        }),
{
}

/// Meta-signal defaults: with no stimulation producer the potential is the
/// negated inhibition; with no inhibition producer it is the stimulation;
/// with neither it is HIGH.
pub proof fn lemma_meta_defaults(stimulation: MetaSignal, inhibition: MetaSignal)
    requires
        0 <= stimulation.value() <= META_SCALE,
        0 <= inhibition.value() <= META_SCALE,
    ensures
        spec_potential(stim_or_default(None), inhib_or_default(Some(inhibition))) == META_SCALE
            - inhibition.value(),
        spec_potential(stim_or_default(Some(stimulation)), inhib_or_default(None))
            == stimulation.value(),
        spec_potential(stim_or_default(None), inhib_or_default(None)) == META_SCALE as int,
{
}

/// Cycle-time floor: a cycle whose work took less than the period sleeps
/// exactly the remainder, so the whole cycle lasts exactly the period; a
/// cycle that overran proceeds immediately and lasts exactly its own work.
pub proof fn lemma_cycle_time_floor(cycle_time_micros: u64, elapsed_micros: u64)
    ensures
        elapsed_micros <= cycle_time_micros ==> elapsed_micros + spec_sleep_budget(
            cycle_time_micros,
            elapsed_micros,
        ) == cycle_time_micros,
        elapsed_micros > cycle_time_micros ==> elapsed_micros + spec_sleep_budget(
            cycle_time_micros,
            elapsed_micros,
        ) == elapsed_micros,
{
}

} // verus!
