//! The named control parameters of the life-cycle machine.
//!
//! Environmental projection produces one scalar per named parameter.  Here a
//! resolved parameter is carried as a fixed-point integer: a raw value of
//! `PARAM_SCALE` stands for one unit, so raw values keep six decimal places
//! of the projected quantity while staying in exact integer arithmetic.
//! Period-like parameters are read through `uint_param`, which truncates the
//! fractional part and refuses a negative value with a configuration error
//! rather than silently coercing it.

use vstd::prelude::*;

verus! {

/// Raw steps per whole parameter unit in the fixed-point encoding.
pub const PARAM_SCALE: i64 = 1_000_000;

/// The number of named control parameters.
pub const NUM_PARAMS: usize = 14;

/// The names of the machine's control parameters, in column order.
#[derive(Clone, Copy)]
pub enum PlantFsmParams {
    SeedMaturationPeriod,
    SeedGerminationConditions,
    SeedGerminationPeriod,
    PlantMaturationPeriod,
    FloweringConditions,
    FloweringPeriod,
    FloweringRecoveryPeriod,
    FloweringSuccessRatio,
    DispersionRate,
    DispersionPeriod,
    DispersionRecoveryPeriod,
    MaturePlantLifePeriod,
    MinimumSurvivalConditions,
    SnagDecompositionPeriod,
    /// Sentinel: one past the last column; not a parameter.
    TotalParams,
}

/// Configuration errors: a value that cannot be used as requested.
#[derive(Clone, Copy, Debug, PartialEq, Eq, Structural)]
pub enum ParamError {
    /// A negative value was requested as a non-negative count.
    NegativeParameter,
}

/// The column a named parameter occupies; the sentinel maps one past the end.
pub open spec fn param_index_spec(p: PlantFsmParams) -> int {
    match p {
        PlantFsmParams::SeedMaturationPeriod => 0,
        PlantFsmParams::SeedGerminationConditions => 1,
        PlantFsmParams::SeedGerminationPeriod => 2,
        PlantFsmParams::PlantMaturationPeriod => 3,
        PlantFsmParams::FloweringConditions => 4,
        PlantFsmParams::FloweringPeriod => 5,
        PlantFsmParams::FloweringRecoveryPeriod => 6,
        PlantFsmParams::FloweringSuccessRatio => 7,
        PlantFsmParams::DispersionRate => 8,
        PlantFsmParams::DispersionPeriod => 9,
        PlantFsmParams::DispersionRecoveryPeriod => 10,
        PlantFsmParams::MaturePlantLifePeriod => 11,
        PlantFsmParams::MinimumSurvivalConditions => 12,
        PlantFsmParams::SnagDecompositionPeriod => 13,
        PlantFsmParams::TotalParams => 14,
    }
}

/// The column a named parameter occupies.
pub fn param_index(p: PlantFsmParams) -> (i: usize)
    ensures
        i == param_index_spec(p),
{
    match p {
        PlantFsmParams::SeedMaturationPeriod => 0,
        PlantFsmParams::SeedGerminationConditions => 1,
        PlantFsmParams::SeedGerminationPeriod => 2,
        PlantFsmParams::PlantMaturationPeriod => 3,
        PlantFsmParams::FloweringConditions => 4,
        PlantFsmParams::FloweringPeriod => 5,
        PlantFsmParams::FloweringRecoveryPeriod => 6,
        PlantFsmParams::FloweringSuccessRatio => 7,
        PlantFsmParams::DispersionRate => 8,
        PlantFsmParams::DispersionPeriod => 9,
        PlantFsmParams::DispersionRecoveryPeriod => 10,
        PlantFsmParams::MaturePlantLifePeriod => 11,
        PlantFsmParams::MinimumSurvivalConditions => 12,
        PlantFsmParams::SnagDecompositionPeriod => 13,
        PlantFsmParams::TotalParams => 14,
    }
}

/// The non-negative count a raw parameter stands for: the raw value with its
/// fractional part truncated, saturated at `u32::MAX`.
pub open spec fn uint_of(v: i64) -> u32
    recommends
        v >= 0,
{
    if (v as int) / (PARAM_SCALE as int) > u32::MAX {
        u32::MAX
    } else {
        ((v as int) / (PARAM_SCALE as int)) as u32
    }
}

/// A parameter of at least one whole unit truncates to a count of at least
/// one.
pub proof fn lemma_uint_of_positive(v: i64)
    requires
        v >= PARAM_SCALE,
    ensures
        uint_of(v) >= 1,
{
    assert((v as int) / (PARAM_SCALE as int) >= 1) by (nonlinear_arith)
        requires
            v >= PARAM_SCALE && PARAM_SCALE > 0,
    ;
}

/// The 14 resolved control parameters, one fixed-point scalar per name.
#[derive(Clone, Copy)]
pub struct SpecificParameterVector {
    columns: [i64; NUM_PARAMS],
}

impl View for SpecificParameterVector {
    type V = Seq<i64>;

    closed spec fn view(&self) -> Seq<i64> {
        self.columns@
    }
}

impl SpecificParameterVector {
    /// Wrap already-resolved raw columns.
    pub fn from_raw(columns: [i64; NUM_PARAMS]) -> (r: Self)
        ensures
            r@ == columns@,
    {
        SpecificParameterVector { columns }
    }

    /// The raw fixed-point value of a parameter.
    pub fn fixed_param(&self, param_type: PlantFsmParams) -> (r: i64)
        requires
            param_index_spec(param_type) < NUM_PARAMS,
        ensures
            r == self@[param_index_spec(param_type)],
    {
        let i = param_index(param_type);
        self.columns[i]
    }

    /// A parameter read as a non-negative count: truncated towards zero and
    /// saturated at `u32::MAX`.  A negative value is a configuration error,
    /// never silently coerced.
    pub fn uint_param(&self, param_type: PlantFsmParams) -> (r: Result<u32, ParamError>)
        requires
            param_index_spec(param_type) < NUM_PARAMS,
        ensures
            self@[param_index_spec(param_type)] < 0 ==> r == Err::<u32, ParamError>(
                ParamError::NegativeParameter,
            ),
            self@[param_index_spec(param_type)] >= 0 ==> r == Ok::<u32, ParamError>(
                uint_of(self@[param_index_spec(param_type)]),
            ),
    {
        let v = self.fixed_param(param_type);
        if v < 0 {
            Err(ParamError::NegativeParameter)
        } else {
            let q = (v as u64) / (PARAM_SCALE as u64);
            if q > u32::MAX as u64 {
                Ok(u32::MAX)
            } else {
                Ok(q as u32)
            }
        }
    }

    /// The ticks from a fresh seed to a mature plant: the seed-maturation,
    /// seed-germination and plant-maturation periods added together.
    pub fn total_maturation_period(&self) -> (r: Result<u32, ParamError>)
        requires
            ({
                let a = self@[param_index_spec(PlantFsmParams::SeedMaturationPeriod)];
                let b = self@[param_index_spec(PlantFsmParams::SeedGerminationPeriod)];
                let c = self@[param_index_spec(PlantFsmParams::PlantMaturationPeriod)];
                a >= 0 && b >= 0 && c >= 0 ==> uint_of(a) + uint_of(b) + uint_of(c) <= u32::MAX
            }),
        ensures
            ({
                let a = self@[param_index_spec(PlantFsmParams::SeedMaturationPeriod)];
                let b = self@[param_index_spec(PlantFsmParams::SeedGerminationPeriod)];
                let c = self@[param_index_spec(PlantFsmParams::PlantMaturationPeriod)];
                if a < 0 || b < 0 || c < 0 {
                    r == Err::<u32, ParamError>(ParamError::NegativeParameter)
                } else {
                    r == Ok::<u32, ParamError>((uint_of(a) + uint_of(b) + uint_of(c)) as u32)
                }
            }),
    {
        let a = self.uint_param(PlantFsmParams::SeedMaturationPeriod);
        let b = self.uint_param(PlantFsmParams::SeedGerminationPeriod);
        let c = self.uint_param(PlantFsmParams::PlantMaturationPeriod);
        match (a, b, c) {
            (Ok(x), Ok(y), Ok(z)) => Ok(x + y + z),
            _ => Err(ParamError::NegativeParameter),
        }
    }
}

} // verus!
