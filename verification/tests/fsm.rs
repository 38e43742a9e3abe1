use treegro::fsm::Stage;
use treegro::{ParamError, PlantStateMachine, SpecificParameterVector};

// One whole unit is 1_000_000 raw steps.
const UNIT: i64 = 1_000_000;

fn generate_test_param_vec() -> SpecificParameterVector {
    SpecificParameterVector::from_raw([
        2 * UNIT,  // Seed mature period
        UNIT,      // Seed germination conditions
        3 * UNIT,  // Seed germination period
        4 * UNIT,  // Plant maturation period
        UNIT,      // Flowering conditions
        2 * UNIT,  // Flowering period
        5 * UNIT,  // Flowering recovery period
        800_000,   // Flowering success ratio
        270_000,   // Dispersion rate
        2 * UNIT,  // Dispersion period
        4 * UNIT,  // Dispersion recovery period
        20 * UNIT, // Mature plant lifetime
        UNIT,      // Minimum survivial conditions
        10 * UNIT, // Snag decomposition period
    ])
}

const FSM_TEST_START_POP: u32 = 100;

#[test]
fn test_fsm_continuity() {
    let mut fsm = PlantStateMachine::default();

    let params = generate_test_param_vec();

    fsm.insert_seeds(FSM_TEST_START_POP);

    println!(
        "        |  is  |  ms  |  ip  |  fp  |  frp  |  dp  |  drp  |  sn  |  mp  |  total  |"
    );

    for i in 0..200 {
        fsm.step(params).unwrap();

        println!(
            "step {:3}:{:6} {:6} {:6} {:6}  {:6} {:6}  {:6} {:6} {:6} {:6}",
            i + 1,
            fsm.stage_pop(Stage::ImmatureSeeds),
            fsm.stage_pop(Stage::MatureSeeds),
            fsm.stage_pop(Stage::ImmaturePlants),
            fsm.stage_pop(Stage::FloweringPlants),
            fsm.stage_pop(Stage::FlowerRecoveringPlants),
            fsm.stage_pop(Stage::DispersingPlants),
            fsm.stage_pop(Stage::DisperseRecoveringPlants),
            fsm.stage_pop(Stage::Snags),
            fsm.mature_pop(),
            fsm.total_pop()
        );
    }
}

// Determinism: identical parameter sequences drive two machines through
// bit-identical population trajectories.
#[test]
fn test_fsm_determinism() {
    let params = generate_test_param_vec();
    let mut a = PlantStateMachine::default();
    let mut b = PlantStateMachine::default();
    a.insert_seeds(FSM_TEST_START_POP);
    b.insert_seeds(FSM_TEST_START_POP);
    for tick in 0..200 {
        a.step(params).unwrap();
        b.step(params).unwrap();
        assert_eq!(a.immature_pop(), b.immature_pop(), "diverged at tick {}", tick);
        assert_eq!(a.mature_pop(), b.mature_pop(), "diverged at tick {}", tick);
        assert_eq!(a.snag_pop(), b.snag_pop(), "diverged at tick {}", tick);
        assert_eq!(a.total_pop(), b.total_pop(), "diverged at tick {}", tick);
    }
}

// End to end: 100 seeds through an idle machine under favourable conditions;
// stage populations stay consistent and the total stays bounded without
// further external insertion.
#[test]
fn test_fsm_end_to_end_bounded() {
    let params = generate_test_param_vec();
    let mut fsm = PlantStateMachine::default();
    fsm.insert_seeds(100);
    let mut max_total: u32 = 0;
    for _ in 0..200 {
        fsm.step(params).unwrap();
        let immature: u32 = fsm.immature_pop();
        let mature: u32 = fsm.mature_pop();
        let snags: u32 = fsm.snag_pop();
        let total: u32 = fsm.total_pop();
        assert_eq!(immature + mature + snags, total);
        if total > max_total {
            max_total = total;
        }
    }
    assert!(
        max_total <= 10_000,
        "population grew without bound: reached {}",
        max_total
    );
}

// A negative period parameter refuses the whole tick with a configuration
// error and leaves the machine untouched.
#[test]
fn test_fsm_negative_period_refuses_tick() {
    let good = generate_test_param_vec();
    let mut columns: [i64; 14] = [
        -2 * UNIT,
        UNIT,
        3 * UNIT,
        4 * UNIT,
        UNIT,
        2 * UNIT,
        5 * UNIT,
        800_000,
        270_000,
        2 * UNIT,
        4 * UNIT,
        20 * UNIT,
        UNIT,
        10 * UNIT,
    ];
    let bad = SpecificParameterVector::from_raw(columns);
    columns[0] = 2 * UNIT;

    let mut fsm = PlantStateMachine::default();
    fsm.insert_seeds(50);
    fsm.step(good).unwrap();
    let before: u32 = fsm.total_pop();
    assert_eq!(fsm.step(bad), Err(ParamError::NegativeParameter));
    assert_eq!(fsm.total_pop(), before);
    assert_eq!(fsm.step(good), Ok(()));
}

// Externally inserted seeds accumulate until the next tick admits them all.
#[test]
fn test_insert_seeds_accumulates() {
    let params = generate_test_param_vec();
    let mut fsm = PlantStateMachine::default();
    fsm.insert_seeds(5);
    fsm.insert_seeds(7);
    fsm.step(params).unwrap();
    assert_eq!(fsm.immature_pop(), 12);
    assert_eq!(fsm.total_pop(), 12);
}

// Unfavourable germination conditions park matured seeds in the dormant
// counter, where they wait without aging until conditions turn.
#[test]
fn test_dormant_seeds_wait_for_conditions() {
    let favourable = generate_test_param_vec();
    let mut columns: [i64; 14] = [
        2 * UNIT,
        -UNIT, // unfavourable germination conditions
        3 * UNIT,
        4 * UNIT,
        UNIT,
        2 * UNIT,
        5 * UNIT,
        800_000,
        270_000,
        2 * UNIT,
        4 * UNIT,
        20 * UNIT,
        UNIT,
        10 * UNIT,
    ];
    let unfavourable = SpecificParameterVector::from_raw(columns);
    columns[1] = UNIT;

    let mut fsm = PlantStateMachine::default();
    fsm.insert_seeds(40);
    // the pulse of 40 matures out of the immature-seed pipe after 2 ticks,
    // but unfavourable conditions keep everything dormant
    for _ in 0..10 {
        fsm.step(unfavourable).unwrap();
        assert_eq!(fsm.immature_pop(), 40);
        assert_eq!(fsm.total_pop(), 40);
    }
    // favourable conditions admit the whole dormant backlog at once
    fsm.step(favourable).unwrap();
    assert_eq!(fsm.immature_pop(), 40);
}

// An idle machine stays at zero everywhere: extinction is absorbing without
// external reseeding.
#[test]
fn test_idle_machine_stays_empty() {
    let params = generate_test_param_vec();
    let mut fsm = PlantStateMachine::default();
    assert_eq!(fsm.total_pop(), 0);
    for _ in 0..20 {
        fsm.step(params).unwrap();
        assert_eq!(fsm.total_pop(), 0);
        assert_eq!(fsm.immature_pop(), 0);
        assert_eq!(fsm.mature_pop(), 0);
        assert_eq!(fsm.snag_pop(), 0);
    }
}
