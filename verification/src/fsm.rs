//! The life-cycle machine: a conservation-respecting pipeline of cohort
//! pipes across the plant life stages.
//!
//! Nine pipes (immature seeds, mature seeds, immature plants, mature plants,
//! flowering, flower-recovering, dispersing, disperse-recovering, snags) and
//! two raw counters (dormant seeds and ready-to-flower plants) form the
//! state.  A tick re-derives every pipe's period from freshly resolved
//! parameters, snapshots every pipe's loss and population before any
//! mutation, and then advances each stage, feeding each pipe's loss into the
//! next stage.  The whole tick is specified by `spec_machine_step`: the new
//! state is a function of the old state and the parameters alone, so every
//! snapshot intermediate must reach its consumer for the tick to verify —
//! a mis-wired stage cannot pass.

use vstd::prelude::*;

use crate::param::{
    param_index_spec, uint_of, ParamError, PlantFsmParams, SpecificParameterVector, PARAM_SCALE,
};
use crate::state_pipe::{
    culled, lemma_resized_sum, resized, stepped, GroundTruthStatePipe,
};
use crate::sums::{lemma_sum_nonneg, sum_of};

verus! {

/// The abstract state of the machine: the per-age counts of the nine pipes,
/// the two raw counters, and the external seed accumulator.
#[verifier::ext_equal]
pub ghost struct MachineState {
    pub inserted_seeds: u32,
    pub dormant_seeds: u32,
    pub ready_to_flower_plants: u32,
    pub immature_seeds: Seq<u32>,
    pub mature_seeds: Seq<u32>,
    pub immature_plants: Seq<u32>,
    pub mature_plants: Seq<u32>,
    pub flowering_plants: Seq<u32>,
    pub flower_recovering_plants: Seq<u32>,
    pub dispersing_plants: Seq<u32>,
    pub disperse_recovering_plants: Seq<u32>,
    pub snags: Seq<u32>,
}

/// Shorthand: the raw value of a named parameter.
pub open spec fn p_at(p: Seq<i64>, name: PlantFsmParams) -> i64 {
    p[param_index_spec(name)]
}

/// A period parameter is usable when it is either negative (the tick is
/// refused with a configuration error) or at least one whole unit (so the
/// pipe keeps a lifespan of at least one tick).
pub open spec fn period_ok(v: i64) -> bool {
    v < 0 || v >= PARAM_SCALE
}

/// All nine period parameters are usable.
pub open spec fn periods_usable(p: Seq<i64>) -> bool {
    &&& period_ok(p_at(p, PlantFsmParams::SeedMaturationPeriod))
    &&& period_ok(p_at(p, PlantFsmParams::SeedGerminationPeriod))
    &&& period_ok(p_at(p, PlantFsmParams::PlantMaturationPeriod))
    &&& period_ok(p_at(p, PlantFsmParams::MaturePlantLifePeriod))
    &&& period_ok(p_at(p, PlantFsmParams::FloweringPeriod))
    &&& period_ok(p_at(p, PlantFsmParams::FloweringRecoveryPeriod))
    &&& period_ok(p_at(p, PlantFsmParams::DispersionPeriod))
    &&& period_ok(p_at(p, PlantFsmParams::DispersionRecoveryPeriod))
    &&& period_ok(p_at(p, PlantFsmParams::SnagDecompositionPeriod))
}

/// All nine period parameters are non-negative: the tick proceeds.
pub open spec fn periods_nonneg(p: Seq<i64>) -> bool {
    &&& p_at(p, PlantFsmParams::SeedMaturationPeriod) >= 0
    &&& p_at(p, PlantFsmParams::SeedGerminationPeriod) >= 0
    &&& p_at(p, PlantFsmParams::PlantMaturationPeriod) >= 0
    &&& p_at(p, PlantFsmParams::MaturePlantLifePeriod) >= 0
    &&& p_at(p, PlantFsmParams::FloweringPeriod) >= 0
    &&& p_at(p, PlantFsmParams::FloweringRecoveryPeriod) >= 0
    &&& p_at(p, PlantFsmParams::DispersionPeriod) >= 0
    &&& p_at(p, PlantFsmParams::DispersionRecoveryPeriod) >= 0
    &&& p_at(p, PlantFsmParams::SnagDecompositionPeriod) >= 0
}

/// Seeds spread this tick: the dispersing population scaled by the dispersal
/// rate, truncated, saturated at `u32::MAX`; a non-positive rate spreads
/// none.
pub open spec fn dispersed_seeds(pop: int, rate: i64) -> u32
    recommends
        0 <= pop <= u32::MAX,
{
    if rate <= 0 {
        0u32
    } else if (pop * rate) / (PARAM_SCALE as int) > u32::MAX {
        u32::MAX
    } else {
        ((pop * rate) / (PARAM_SCALE as int)) as u32
    }
}

/// The flowered plants that set seed successfully: the flowered cohort
/// scaled by the success ratio, truncated; a non-positive ratio yields none.
pub open spec fn success_split(flowered: u32, ratio: i64) -> u32
    recommends
        ratio <= PARAM_SCALE,
{
    if ratio <= 0 {
        0u32
    } else {
        ((flowered * ratio) / (PARAM_SCALE as int)) as u32
    }
}

/// A raw counter culled by the fraction `removed / total`, like a pipe with
/// a single slot; a zero `total` stands for a zero fraction.
pub open spec fn culled_count(c: u32, removed: u32, total: u32) -> u32
    recommends
        removed <= total,
{
    if total == 0 {
        c
    } else {
        ((c * (total - removed)) / (total as int)) as u32
    }
}

/// Tick phase one: every pipe's period re-derived from the parameters;
/// counters untouched.
pub open spec fn spec_update_states(m: MachineState, p: Seq<i64>) -> MachineState
    recommends
        periods_nonneg(p),
{
    MachineState {
        inserted_seeds: m.inserted_seeds,
        dormant_seeds: m.dormant_seeds,
        ready_to_flower_plants: m.ready_to_flower_plants,
        immature_seeds: resized(
            m.immature_seeds,
            uint_of(p_at(p, PlantFsmParams::SeedMaturationPeriod)) as int,
        ),
        mature_seeds: resized(
            m.mature_seeds,
            uint_of(p_at(p, PlantFsmParams::SeedGerminationPeriod)) as int,
        ),
        immature_plants: resized(
            m.immature_plants,
            uint_of(p_at(p, PlantFsmParams::PlantMaturationPeriod)) as int,
        ),
        mature_plants: resized(
            m.mature_plants,
            uint_of(p_at(p, PlantFsmParams::MaturePlantLifePeriod)) as int,
        ),
        flowering_plants: resized(
            m.flowering_plants,
            uint_of(p_at(p, PlantFsmParams::FloweringPeriod)) as int,
        ),
        flower_recovering_plants: resized(
            m.flower_recovering_plants,
            uint_of(p_at(p, PlantFsmParams::FloweringRecoveryPeriod)) as int,
        ),
        dispersing_plants: resized(
            m.dispersing_plants,
            uint_of(p_at(p, PlantFsmParams::DispersionPeriod)) as int,
        ),
        disperse_recovering_plants: resized(
            m.disperse_recovering_plants,
            uint_of(p_at(p, PlantFsmParams::DispersionRecoveryPeriod)) as int,
        ),
        snags: resized(
            m.snags,
            uint_of(p_at(p, PlantFsmParams::SnagDecompositionPeriod)) as int,
        ),
    }
}

/// One whole tick of the machine, from the state and the resolved
/// parameters alone.
///
/// After the period update, every loss and population below is a snapshot of
/// the pre-mutation state `t`; the mature-plant mortality fraction
/// `dead / mature population` (zero when the population is zero, never a
/// division by zero) is propagated as a uniform cull before any pipe
/// advances.
pub open spec fn spec_machine_step(m: MachineState, p: Seq<i64>) -> MachineState
    recommends
        periods_nonneg(p),
{
    let t = spec_update_states(m, p);
    let matured_seeds = t.immature_seeds[0];
    let germinated_seeds = t.mature_seeds[0];
    let matured_plants = t.immature_plants[0];
    let dead_plants = t.mature_plants[0];
    let flowered_plants = t.flowering_plants[0];
    let dispersed_plants = t.dispersing_plants[0];
    let total_seeds_dispersed = dispersed_seeds(
        sum_of(t.dispersing_plants),
        p_at(p, PlantFsmParams::DispersionRate),
    );
    let recovered_plants = t.flower_recovering_plants[0] + t.disperse_recovering_plants[0];
    let mature_pop = sum_of(t.mature_plants) as u32;
    let fp2 = culled(t.flowering_plants, dead_plants, mature_pop);
    let dp2 = culled(t.dispersing_plants, dead_plants, mature_pop);
    let frp2 = culled(t.flower_recovering_plants, dead_plants, mature_pop);
    let drp2 = culled(t.disperse_recovering_plants, dead_plants, mature_pop);
    let ready1 = culled_count(t.ready_to_flower_plants, dead_plants, mature_pop);
    let germinating = p_at(p, PlantFsmParams::SeedGerminationConditions) >= 0;
    let flowering = p_at(p, PlantFsmParams::FloweringConditions) >= 0;
    let ready2 = (ready1 + matured_plants + recovered_plants) as u32;
    let flower_success_pop = success_split(
        flowered_plants,
        p_at(p, PlantFsmParams::FloweringSuccessRatio),
    );
    MachineState {
        inserted_seeds: 0u32,
        dormant_seeds: if germinating {
            0u32
        } else {
            (t.dormant_seeds + matured_seeds) as u32
        },
        ready_to_flower_plants: if flowering {
            0u32
        } else {
            ready2
        },
        immature_seeds: stepped(
            t.immature_seeds,
            (total_seeds_dispersed + t.inserted_seeds) as u32,
        ),
        mature_seeds: if germinating {
            stepped(t.mature_seeds, (matured_seeds + t.dormant_seeds) as u32)
        } else {
            t.mature_seeds
        },
        immature_plants: stepped(t.immature_plants, germinated_seeds),
        mature_plants: stepped(t.mature_plants, matured_plants),
        flowering_plants: if flowering {
            stepped(fp2, ready2)
        } else {
            fp2
        },
        flower_recovering_plants: stepped(frp2, (flowered_plants - flower_success_pop) as u32),
        dispersing_plants: stepped(dp2, flower_success_pop),
        disperse_recovering_plants: stepped(drp2, dispersed_plants),
        snags: stepped(t.snags, dead_plants),
    }
}

/// Every count computed by a tick stays within `u32` bounds; inputs on which
/// the fixed-width arithmetic of a tick would overflow are outside this
/// machine's domain.
pub open spec fn machine_step_fits(m: MachineState, p: Seq<i64>) -> bool {
    periods_nonneg(p) ==> {
        let t = spec_update_states(m, p);
        let matured_seeds = t.immature_seeds[0];
        let germinated_seeds = t.mature_seeds[0];
        let matured_plants = t.immature_plants[0];
        let dead_plants = t.mature_plants[0];
        let flowered_plants = t.flowering_plants[0];
        let dispersed_plants = t.dispersing_plants[0];
        let total_seeds_dispersed = dispersed_seeds(
            sum_of(t.dispersing_plants),
            p_at(p, PlantFsmParams::DispersionRate),
        );
        let recovered_plants = t.flower_recovering_plants[0] + t.disperse_recovering_plants[0];
        let mature_pop = sum_of(t.mature_plants) as u32;
        let fp2 = culled(t.flowering_plants, dead_plants, mature_pop);
        let dp2 = culled(t.dispersing_plants, dead_plants, mature_pop);
        let frp2 = culled(t.flower_recovering_plants, dead_plants, mature_pop);
        let drp2 = culled(t.disperse_recovering_plants, dead_plants, mature_pop);
        let ready1 = culled_count(t.ready_to_flower_plants, dead_plants, mature_pop);
        let ready2 = ready1 + matured_plants + recovered_plants;
        let flower_success_pop = success_split(
            flowered_plants,
            p_at(p, PlantFsmParams::FloweringSuccessRatio),
        );
        &&& p_at(p, PlantFsmParams::FloweringSuccessRatio) <= PARAM_SCALE
        &&& total_seeds_dispersed + m.inserted_seeds <= u32::MAX
        &&& sum_of(t.immature_seeds) - matured_seeds + total_seeds_dispersed + m.inserted_seeds
            <= u32::MAX
        &&& m.dormant_seeds + matured_seeds <= u32::MAX
        &&& sum_of(t.mature_seeds) - germinated_seeds + matured_seeds + m.dormant_seeds
            <= u32::MAX
        &&& sum_of(t.immature_plants) - matured_plants + germinated_seeds <= u32::MAX
        &&& sum_of(t.mature_plants) - dead_plants + matured_plants <= u32::MAX
        &&& ready2 <= u32::MAX
        &&& sum_of(fp2) - fp2[0] + ready2 <= u32::MAX
        &&& sum_of(dp2) - dp2[0] + flower_success_pop <= u32::MAX
        &&& sum_of(frp2) - frp2[0] + (flowered_plants - flower_success_pop) <= u32::MAX
        &&& sum_of(drp2) - drp2[0] + dispersed_plants <= u32::MAX
        &&& sum_of(t.snags) - t.snags[0] + dead_plants <= u32::MAX
    }
}

/// The machine state before any seed is inserted: every pipe slotless,
/// every counter zero.
pub open spec fn initial_state() -> MachineState {
    MachineState {
        inserted_seeds: 0u32,
        dormant_seeds: 0u32,
        ready_to_flower_plants: 0u32,
        immature_seeds: Seq::<u32>::empty(),
        mature_seeds: Seq::<u32>::empty(),
        immature_plants: Seq::<u32>::empty(),
        mature_plants: Seq::<u32>::empty(),
        flowering_plants: Seq::<u32>::empty(),
        flower_recovering_plants: Seq::<u32>::empty(),
        dispersing_plants: Seq::<u32>::empty(),
        disperse_recovering_plants: Seq::<u32>::empty(),
        snags: Seq::<u32>::empty(),
    }
}

/// Every pipe's total stays within `u32`, so populations can be reported.
pub open spec fn state_wf(m: MachineState) -> bool {
    &&& sum_of(m.immature_seeds) <= u32::MAX
    &&& sum_of(m.mature_seeds) <= u32::MAX
    &&& sum_of(m.immature_plants) <= u32::MAX
    &&& sum_of(m.mature_plants) <= u32::MAX
    &&& sum_of(m.flowering_plants) <= u32::MAX
    &&& sum_of(m.flower_recovering_plants) <= u32::MAX
    &&& sum_of(m.dispersing_plants) <= u32::MAX
    &&& sum_of(m.disperse_recovering_plants) <= u32::MAX
    &&& sum_of(m.snags) <= u32::MAX
}

/// The population of the immature stages: seeds of every kind plus plants
/// not yet mature.
pub open spec fn spec_immature_pop(m: MachineState) -> int {
    sum_of(m.immature_seeds) + sum_of(m.mature_seeds) + m.dormant_seeds + sum_of(
        m.immature_plants,
    )
}

/// The population of every stage together: immature, mature and snags.
pub open spec fn spec_total_pop(m: MachineState) -> int {
    spec_immature_pop(m) + sum_of(m.mature_plants) + sum_of(m.snags)
}

/// Determinism law: a tick is a function of the machine state and the
/// resolved parameters alone, so identical parameter sequences drive
/// identical states through identical trajectories.
pub proof fn lemma_step_deterministic(
    m1: MachineState,
    m2: MachineState,
    p1: Seq<i64>,
    p2: Seq<i64>,
)
    requires
        m1 == m2,
        p1 == p2,
    ensures
        spec_machine_step(m1, p1) == spec_machine_step(m2, p2),
{
}

/// The multi-stage life-cycle machine over exact cohort pipes.
pub struct PlantStateMachine {
    inserted_seeds: u32,
    immature_seeds: GroundTruthStatePipe,
    mature_seeds: GroundTruthStatePipe,
    dormant_seeds: u32,
    immature_plants: GroundTruthStatePipe,
    mature_plants: GroundTruthStatePipe,
    ready_to_flower_plants: u32,
    flowering_plants: GroundTruthStatePipe,
    flower_recovering_plants: GroundTruthStatePipe,
    dispersing_plants: GroundTruthStatePipe,
    disperse_recovering_plants: GroundTruthStatePipe,
    snags: GroundTruthStatePipe,
}

impl View for PlantStateMachine {
    type V = MachineState;

    closed spec fn view(&self) -> MachineState {
        MachineState {
            inserted_seeds: self.inserted_seeds,
            dormant_seeds: self.dormant_seeds,
            ready_to_flower_plants: self.ready_to_flower_plants,
            immature_seeds: self.immature_seeds@,
            mature_seeds: self.mature_seeds@,
            immature_plants: self.immature_plants@,
            mature_plants: self.mature_plants@,
            flowering_plants: self.flowering_plants@,
            flower_recovering_plants: self.flower_recovering_plants@,
            dispersing_plants: self.dispersing_plants@,
            disperse_recovering_plants: self.disperse_recovering_plants@,
            snags: self.snags@,
        }
    }
}

impl Default for PlantStateMachine {
    /// An idle machine: nothing tracked anywhere.
    fn default() -> (r: Self)
        ensures
            r@ == initial_state(),
            r.wf(),
    {
        let r = PlantStateMachine {
            inserted_seeds: 0,
            immature_seeds: GroundTruthStatePipe::default(),
            mature_seeds: GroundTruthStatePipe::default(),
            dormant_seeds: 0,
            immature_plants: GroundTruthStatePipe::default(),
            mature_plants: GroundTruthStatePipe::default(),
            ready_to_flower_plants: 0,
            flowering_plants: GroundTruthStatePipe::default(),
            flower_recovering_plants: GroundTruthStatePipe::default(),
            dispersing_plants: GroundTruthStatePipe::default(),
            disperse_recovering_plants: GroundTruthStatePipe::default(),
            snags: GroundTruthStatePipe::default(),
        };
        proof {
            assert(sum_of(Seq::<u32>::empty()) == 0);
            assert(r@ =~= initial_state());
        }
        r
    }
}

impl PlantStateMachine {
    /// Every pipe's total stays within `u32`.
    pub open spec fn wf(&self) -> bool {
        state_wf(self@)
    }

    /// Tick phase one: re-derive every pipe's period from the parameters.
    /// A negative period parameter is a configuration error: the machine is
    /// left untouched and the tick is refused.
    fn update_states(&mut self, param_vec: &SpecificParameterVector) -> (r: Result<
        (),
        ParamError,
    >)
        requires
            old(self).wf(),
            periods_usable(param_vec@),
        ensures
            final(self).wf(),
            periods_nonneg(param_vec@) ==> r == Ok::<(), ParamError>(()) && final(self)@
                == spec_update_states(old(self)@, param_vec@),
            !periods_nonneg(param_vec@) ==> r == Err::<(), ParamError>(
                ParamError::NegativeParameter,
            ) && final(self)@ == old(self)@,
    {
        let p_is = param_vec.uint_param(PlantFsmParams::SeedMaturationPeriod);
        let p_ms = param_vec.uint_param(PlantFsmParams::SeedGerminationPeriod);
        let p_ip = param_vec.uint_param(PlantFsmParams::PlantMaturationPeriod);
        let p_mp = param_vec.uint_param(PlantFsmParams::MaturePlantLifePeriod);
        let p_fp = param_vec.uint_param(PlantFsmParams::FloweringPeriod);
        let p_frp = param_vec.uint_param(PlantFsmParams::FloweringRecoveryPeriod);
        let p_dp = param_vec.uint_param(PlantFsmParams::DispersionPeriod);
        let p_drp = param_vec.uint_param(PlantFsmParams::DispersionRecoveryPeriod);
        let p_sn = param_vec.uint_param(PlantFsmParams::SnagDecompositionPeriod);
        match (p_is, p_ms, p_ip, p_mp, p_fp, p_frp, p_dp, p_drp, p_sn) {
            (
                Ok(v_is),
                Ok(v_ms),
                Ok(v_ip),
                Ok(v_mp),
                Ok(v_fp),
                Ok(v_frp),
                Ok(v_dp),
                Ok(v_drp),
                Ok(v_sn),
            ) => {
                proof {
                    crate::param::lemma_uint_of_positive(
                        param_vec@[param_index_spec(PlantFsmParams::SeedMaturationPeriod)],
                    );
                    crate::param::lemma_uint_of_positive(
                        param_vec@[param_index_spec(PlantFsmParams::SeedGerminationPeriod)],
                    );
                    crate::param::lemma_uint_of_positive(
                        param_vec@[param_index_spec(PlantFsmParams::PlantMaturationPeriod)],
                    );
                    crate::param::lemma_uint_of_positive(
                        param_vec@[param_index_spec(PlantFsmParams::MaturePlantLifePeriod)],
                    );
                    crate::param::lemma_uint_of_positive(
                        param_vec@[param_index_spec(PlantFsmParams::FloweringPeriod)],
                    );
                    crate::param::lemma_uint_of_positive(
                        param_vec@[param_index_spec(PlantFsmParams::FloweringRecoveryPeriod)],
                    );
                    crate::param::lemma_uint_of_positive(
                        param_vec@[param_index_spec(PlantFsmParams::DispersionPeriod)],
                    );
                    crate::param::lemma_uint_of_positive(
                        param_vec@[param_index_spec(PlantFsmParams::DispersionRecoveryPeriod)],
                    );
                    crate::param::lemma_uint_of_positive(
                        param_vec@[param_index_spec(PlantFsmParams::SnagDecompositionPeriod)],
                    );
                }
                self.immature_seeds.set_period(v_is);
                self.mature_seeds.set_period(v_ms);
                self.immature_plants.set_period(v_ip);
                self.mature_plants.set_period(v_mp);
                self.flowering_plants.set_period(v_fp);
                self.flower_recovering_plants.set_period(v_frp);
                self.dispersing_plants.set_period(v_dp);
                self.disperse_recovering_plants.set_period(v_drp);
                self.snags.set_period(v_sn);
                proof {
                    assert(self@ =~= spec_update_states(old(self)@, param_vec@));
                }
                Ok(())
            },
            _ => Err(ParamError::NegativeParameter),
        }
    }

    /// One tick of the whole machine.
    ///
    /// Re-derives every period, snapshots every loss and population, then
    /// advances every stage; the new state is exactly
    /// `spec_machine_step(old state, parameters)`.  A negative period
    /// parameter refuses the tick with a configuration error and leaves the
    /// machine untouched.
    #[verifier::rlimit(60)]
    pub fn step(&mut self, param_vec: SpecificParameterVector) -> (r: Result<(), ParamError>)
        requires
            old(self).wf(),
            periods_usable(param_vec@),
            machine_step_fits(old(self)@, param_vec@),
        ensures
            final(self).wf(),
            periods_nonneg(param_vec@) ==> r == Ok::<(), ParamError>(()) && final(self)@
                == spec_machine_step(old(self)@, param_vec@),
            !periods_nonneg(param_vec@) ==> r == Err::<(), ParamError>(
                ParamError::NegativeParameter,
            ) && final(self)@ == old(self)@,
    {
        let ghost m0 = old(self)@;
        let ghost p = param_vec@;
        match self.update_states(&param_vec) {
            Err(e) => {
                return Err(e);
            },
            Ok(()) => {},
        }
        let ghost t = spec_update_states(m0, p);
        proof {
            assert(self@ == t);
            crate::param::lemma_uint_of_positive(
                p_at(p, PlantFsmParams::SeedMaturationPeriod),
            );
            crate::param::lemma_uint_of_positive(
                p_at(p, PlantFsmParams::SeedGerminationPeriod),
            );
            crate::param::lemma_uint_of_positive(
                p_at(p, PlantFsmParams::PlantMaturationPeriod),
            );
            crate::param::lemma_uint_of_positive(
                p_at(p, PlantFsmParams::MaturePlantLifePeriod),
            );
            crate::param::lemma_uint_of_positive(p_at(p, PlantFsmParams::FloweringPeriod));
            crate::param::lemma_uint_of_positive(
                p_at(p, PlantFsmParams::FloweringRecoveryPeriod),
            );
            crate::param::lemma_uint_of_positive(p_at(p, PlantFsmParams::DispersionPeriod));
            crate::param::lemma_uint_of_positive(
                p_at(p, PlantFsmParams::DispersionRecoveryPeriod),
            );
            crate::param::lemma_uint_of_positive(
                p_at(p, PlantFsmParams::SnagDecompositionPeriod),
            );
            lemma_resized_sum(
                m0.immature_seeds,
                uint_of(p_at(p, PlantFsmParams::SeedMaturationPeriod)) as int,
            );
            lemma_resized_sum(
                m0.mature_seeds,
                uint_of(p_at(p, PlantFsmParams::SeedGerminationPeriod)) as int,
            );
            lemma_resized_sum(
                m0.immature_plants,
                uint_of(p_at(p, PlantFsmParams::PlantMaturationPeriod)) as int,
            );
            lemma_resized_sum(
                m0.mature_plants,
                uint_of(p_at(p, PlantFsmParams::MaturePlantLifePeriod)) as int,
            );
            lemma_resized_sum(
                m0.flowering_plants,
                uint_of(p_at(p, PlantFsmParams::FloweringPeriod)) as int,
            );
            lemma_resized_sum(
                m0.flower_recovering_plants,
                uint_of(p_at(p, PlantFsmParams::FloweringRecoveryPeriod)) as int,
            );
            lemma_resized_sum(
                m0.dispersing_plants,
                uint_of(p_at(p, PlantFsmParams::DispersionPeriod)) as int,
            );
            lemma_resized_sum(
                m0.disperse_recovering_plants,
                uint_of(p_at(p, PlantFsmParams::DispersionRecoveryPeriod)) as int,
            );
            lemma_resized_sum(
                m0.snags,
                uint_of(p_at(p, PlantFsmParams::SnagDecompositionPeriod)) as int,
            );
        }
        // Snapshot every loss and population before any mutation; all later
        // admissions of this tick read this snapshot.
        let matured_seeds = self.immature_seeds.loss();
        let germinated_seeds = self.mature_seeds.loss();
        let matured_plants = self.immature_plants.loss();
        let dead_plants = self.mature_plants.loss();
        let flowered_plants = self.flowering_plants.loss();
        let dispersed_plants = self.dispersing_plants.loss();
        let disp_pop = self.dispersing_plants.pop();
        let rate = param_vec.fixed_param(PlantFsmParams::DispersionRate);
        let total_seeds_dispersed: u32 = if rate <= 0 {
            0
        } else {
            proof {
                assert(disp_pop as int * rate as int <= u128::MAX) by (nonlinear_arith)
                    requires
                        disp_pop <= u32::MAX && 0 < rate <= i64::MAX,
                ;
            }
            let prod = (disp_pop as u128) * (rate as u128);
            let q = prod / (PARAM_SCALE as u128);
            if q > u32::MAX as u128 {
                u32::MAX
            } else {
                q as u32
            }
        };
        proof {
            assert(total_seeds_dispersed == dispersed_seeds(
                sum_of(t.dispersing_plants),
                p_at(p, PlantFsmParams::DispersionRate),
            ));
        }
        let frp_loss = self.flower_recovering_plants.loss();
        let drp_loss = self.disperse_recovering_plants.loss();
        let recovered_plants = frp_loss + drp_loss;
        let mature_pop = self.mature_plants.pop();
        // Mature-plant mortality, propagated as a uniform cull from the one
        // pre-mutation snapshot; the fraction is zero when the mature
        // population is zero, never a division by zero.
        if mature_pop > 0 {
            self.flowering_plants.cull_pop(dead_plants, mature_pop);
            self.dispersing_plants.cull_pop(dead_plants, mature_pop);
            self.flower_recovering_plants.cull_pop(dead_plants, mature_pop);
            self.disperse_recovering_plants.cull_pop(dead_plants, mature_pop);
            let keep = mature_pop - dead_plants;
            proof {
                crate::state_pipe::lemma_scale_le(self.ready_to_flower_plants, keep, mature_pop);
                assert(self.ready_to_flower_plants as int * keep as int <= u64::MAX)
                    by (nonlinear_arith)
                    requires
                        self.ready_to_flower_plants <= u32::MAX && keep <= u32::MAX,
                ;
            }
            self.ready_to_flower_plants = ((self.ready_to_flower_plants as u64 * keep as u64) / (
            mature_pop as u64)) as u32;
        }
        let ghost fp2 = culled(t.flowering_plants, dead_plants, mature_pop);
        let ghost dp2 = culled(t.dispersing_plants, dead_plants, mature_pop);
        let ghost frp2 = culled(t.flower_recovering_plants, dead_plants, mature_pop);
        let ghost drp2 = culled(t.disperse_recovering_plants, dead_plants, mature_pop);
        proof {
            assert(self.flowering_plants@ == fp2);
            assert(self.dispersing_plants@ == dp2);
            assert(self.flower_recovering_plants@ == frp2);
            assert(self.disperse_recovering_plants@ == drp2);
            assert(self.ready_to_flower_plants == culled_count(
                t.ready_to_flower_plants,
                dead_plants,
                mature_pop,
            ));
        }
        // Dead mature plants become standing snags.
        self.snags.step(dead_plants);
        // Admit dispersed plus externally inserted seeds; clear the
        // accumulator.
        self.immature_seeds.step(total_seeds_dispersed + self.inserted_seeds);
        self.inserted_seeds = 0;
        // Germination conditional: in unfavourable conditions matured seeds
        // lie dormant without aging; otherwise they germinate together with
        // the dormant backlog.
        if param_vec.fixed_param(PlantFsmParams::SeedGerminationConditions) < 0 {
            self.dormant_seeds = self.dormant_seeds + matured_seeds;
        } else {
            self.mature_seeds.step(matured_seeds + self.dormant_seeds);
            self.dormant_seeds = 0;
        }
        // Germinated seeds become immature plants.
        self.immature_plants.step(germinated_seeds);
        // Newly matured plants join the mature stage and queue to flower.
        self.mature_plants.step(matured_plants);
        self.ready_to_flower_plants = self.ready_to_flower_plants + matured_plants;
        // Recovered plants queue to flower again.
        self.ready_to_flower_plants = self.ready_to_flower_plants + recovered_plants;
        // Flowering conditional: in unfavourable conditions the queue holds.
        if param_vec.fixed_param(PlantFsmParams::FloweringConditions) < 0 {
        } else {
            let ready = self.ready_to_flower_plants;
            self.flowering_plants.step(ready);
            self.ready_to_flower_plants = 0;
        }
        // Flowering outcome split between dispersal and recovery.
        let ratio = param_vec.fixed_param(PlantFsmParams::FloweringSuccessRatio);
        let flower_success_pop: u32 = if ratio <= 0 {
            0
        } else {
            proof {
                assert(flowered_plants as int * ratio as int <= u64::MAX) by (nonlinear_arith)
                    requires
                        flowered_plants <= u32::MAX && 0 < ratio <= PARAM_SCALE,
                ;
                assert((flowered_plants as int * ratio as int) / (PARAM_SCALE as int)
                    <= flowered_plants) by (nonlinear_arith)
                    requires
                        0 < ratio <= PARAM_SCALE && flowered_plants >= 0 && PARAM_SCALE > 0,
                ;
            }
            ((flowered_plants as u64 * ratio as u64) / (PARAM_SCALE as u64)) as u32
        };
        proof {
            assert(flower_success_pop == success_split(
                flowered_plants,
                p_at(p, PlantFsmParams::FloweringSuccessRatio),
            ));
        }
        self.dispersing_plants.step(flower_success_pop);
        self.flower_recovering_plants.step(flowered_plants - flower_success_pop);
        // Plants that dispersed start their recovery.
        self.disperse_recovering_plants.step(dispersed_plants);
        proof {
            assert(self@ =~= spec_machine_step(m0, p));
        }
        Ok(())
    }

    /// Queue externally inserted seeds; they are admitted and the
    /// accumulator cleared on the next tick.
    pub fn insert_seeds(&mut self, gain: u32)
        requires
            old(self)@.inserted_seeds + gain <= u32::MAX,
        ensures
            final(self)@ == with_inserted(old(self)@, (old(self)@.inserted_seeds + gain) as u32),
            final(self).wf() == old(self).wf(),
    {
        self.inserted_seeds = self.inserted_seeds + gain;
        proof {
            assert(self@ =~= with_inserted(old(self)@, self.inserted_seeds));
        }
    }

    /// The population not yet mature: seeds of every kind (dormant included)
    /// plus immature plants.
    pub fn immature_pop(&self) -> (r: u32)
        requires
            self.wf(),
            spec_immature_pop(self@) <= u32::MAX,
        ensures
            r == spec_immature_pop(self@),
    {
        proof {
            lemma_sum_nonneg(self@.immature_seeds);
            lemma_sum_nonneg(self@.mature_seeds);
            lemma_sum_nonneg(self@.immature_plants);
        }
        self.immature_seeds.pop() + self.mature_seeds.pop() + self.dormant_seeds
            + self.immature_plants.pop()
    }

    /// The mature-plant population.
    pub fn mature_pop(&self) -> (r: u32)
        requires
            self.wf(),
        ensures
            r == sum_of(self@.mature_plants),
    {
        self.mature_plants.pop()
    }

    /// The standing dead matter awaiting decomposition.
    pub fn snag_pop(&self) -> (r: u32)
        requires
            self.wf(),
        ensures
            r == sum_of(self@.snags),
    {
        self.snags.pop()
    }

    /// The population of one named stage pipe, for rendering and logging.
    pub fn stage_pop(&self, stage: Stage) -> (r: u32)
        requires
            self.wf(),
        ensures
            r == sum_of(stage_of(self@, stage)),
    {
        match stage {
            Stage::ImmatureSeeds => self.immature_seeds.pop(),
            Stage::MatureSeeds => self.mature_seeds.pop(),
            Stage::ImmaturePlants => self.immature_plants.pop(),
            Stage::MaturePlants => self.mature_plants.pop(),
            Stage::FloweringPlants => self.flowering_plants.pop(),
            Stage::FlowerRecoveringPlants => self.flower_recovering_plants.pop(),
            Stage::DispersingPlants => self.dispersing_plants.pop(),
            Stage::DisperseRecoveringPlants => self.disperse_recovering_plants.pop(),
            Stage::Snags => self.snags.pop(),
        }
    }

    /// The population of every stage together.
    pub fn total_pop(&self) -> (r: u32)
        requires
            self.wf(),
            spec_total_pop(self@) <= u32::MAX,
        ensures
            r == spec_total_pop(self@),
    {
        proof {
            lemma_sum_nonneg(self@.mature_plants);
            lemma_sum_nonneg(self@.snags);
        }
        self.immature_pop() + self.mature_pop() + self.snag_pop()
    }
}

/// The stage pipes of the machine, by role.
#[derive(Clone, Copy)]
pub enum Stage {
    ImmatureSeeds,
    MatureSeeds,
    ImmaturePlants,
    MaturePlants,
    FloweringPlants,
    FlowerRecoveringPlants,
    DispersingPlants,
    DisperseRecoveringPlants,
    Snags,
}

/// The cohort sequence of one named stage.
pub open spec fn stage_of(m: MachineState, stage: Stage) -> Seq<u32> {
    match stage {
        Stage::ImmatureSeeds => m.immature_seeds,
        Stage::MatureSeeds => m.mature_seeds,
        Stage::ImmaturePlants => m.immature_plants,
        Stage::MaturePlants => m.mature_plants,
        Stage::FloweringPlants => m.flowering_plants,
        Stage::FlowerRecoveringPlants => m.flower_recovering_plants,
        Stage::DispersingPlants => m.dispersing_plants,
        Stage::DisperseRecoveringPlants => m.disperse_recovering_plants,
        Stage::Snags => m.snags,
    }
}

/// The state with the external seed accumulator replaced and everything
/// else untouched.
pub open spec fn with_inserted(m: MachineState, v: u32) -> MachineState {
    MachineState {
        inserted_seeds: v,
        dormant_seeds: m.dormant_seeds,
        ready_to_flower_plants: m.ready_to_flower_plants,
        immature_seeds: m.immature_seeds,
        mature_seeds: m.mature_seeds,
        immature_plants: m.immature_plants,
        mature_plants: m.mature_plants,
        flowering_plants: m.flowering_plants,
        flower_recovering_plants: m.flower_recovering_plants,
        dispersing_plants: m.dispersing_plants,
        disperse_recovering_plants: m.disperse_recovering_plants,
        snags: m.snags,
    }
}

} // verus!

