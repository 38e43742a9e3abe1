use treegro::GroundTruthStatePipe;

const SIMPLE_TEST_PERIOD_INCR: u32 = 5;
const SIMPLE_TEST_AMOUNT: u32 = 10;
const SIMPLE_TEST_ITER: u32 = 10;

fn do_simple_state_pipe_test(pipe_name: &'static str, mut pipe: GroundTruthStatePipe) {
    let mut period: u32 = 0;

    for _ in 0..SIMPLE_TEST_ITER {
        period += SIMPLE_TEST_PERIOD_INCR;
        pipe.set_period(period);

        pipe.step(SIMPLE_TEST_AMOUNT);

        for i in 0..(period - 1) {
            assert!(
                pipe.loss() == 0,
                "{} lost {} population prematurely on step {}!",
                pipe_name,
                pipe.loss(),
                i
            );

            pipe.step(0);

            assert!(
                pipe.pop() == SIMPLE_TEST_AMOUNT,
                "{} population decreased during it's period!",
                pipe_name
            );
        }

        assert!(
            pipe.loss() == SIMPLE_TEST_AMOUNT,
            "{} didn't lose enough population after it's period!",
            pipe_name
        );

        pipe.step(0);

        assert!(
            pipe.pop() == 0,
            "{} retained population after it's period! {}!",
            pipe_name,
            pipe.pop()
        );
    }
}

const CONT_TEST_PERIOD_INCR: u32 = 5;
const CONT_TEST_DIST_LENGTH: u32 = 50;
const CONT_TEST_AMOUNT_INCR: u32 = 5;
const CONT_TEST_ITER: u32 = 20;

fn do_cont_state_pipe_test(pipe_name: &'static str, mut pipe: GroundTruthStatePipe) {
    let mut period: u32 = 0;
    let mut pop_size: u32 = 0;

    for _ in 0..CONT_TEST_ITER {
        period += CONT_TEST_PERIOD_INCR;

        for _ in 0..CONT_TEST_ITER {
            pop_size += CONT_TEST_AMOUNT_INCR;
            pipe.set_period(period);

            // Only gain
            for i in 0..period.min(CONT_TEST_DIST_LENGTH) {
                assert!(
                    pipe.loss() == 0,
                    "{} lost {} population during insertion step {}!",
                    pipe_name,
                    pipe.loss(),
                    i
                );

                pipe.step(pop_size);

                assert!(
                    pipe.pop() == (i + 1) * pop_size,
                    "{} incorrect population after insertion step {}: {}!",
                    pipe_name,
                    i,
                    pop_size,
                );
            }

            let init_gain_pop: u32 = pipe.pop();

            if period < CONT_TEST_DIST_LENGTH {
                // Both gain and loss
                for i in 0..(CONT_TEST_DIST_LENGTH - period) {
                    assert!(
                        pipe.loss() == pop_size,
                        "{} didn't lose correct population on gain+loss on step {}!",
                        pipe_name,
                        i
                    );

                    pipe.step(pop_size);

                    assert!(
                        pipe.pop() == init_gain_pop,
                        "{} population didn't remain constant during gain+loss!",
                        pipe_name
                    );
                }
            } else {
                // Neither gain nor loss
                for i in 0..(period - CONT_TEST_DIST_LENGTH) {
                    assert!(
                        pipe.loss() == 0,
                        "{} lost {} population prematurely on hold step {}!",
                        pipe_name,
                        pipe.loss(),
                        i
                    );

                    pipe.step(0);

                    assert!(
                        pipe.pop() == init_gain_pop,
                        "{} population didn't remain constant during hold!",
                        pipe_name
                    );
                }
            }

            // Only loss
            for i in 0..period.min(CONT_TEST_DIST_LENGTH) {
                assert!(
                    pipe.loss() == pop_size,
                    "{} didn't lose correct population on loss step {}: {}!",
                    pipe_name,
                    i,
                    pipe.loss()
                );

                pipe.step(0);

                assert!(
                    pipe.pop() == init_gain_pop - (i + 1) * pop_size,
                    "{} populate didn't decrease correctly during loss!",
                    pipe_name
                );
            }

            assert!(
                pipe.loss() == 0,
                "{} still has loss after it's period: {}!",
                pipe_name,
                pipe.loss(),
            );

            assert!(
                pipe.pop() == 0,
                "{} still has population after it's period: {}!",
                pipe_name,
                pipe.pop()
            );
        }
    }
}

#[test]
fn test_ground_truth_pipe_simple() {
    do_simple_state_pipe_test("GroundTruthStatePipe", GroundTruthStatePipe::default());
}

#[test]
fn test_ground_truth_pipe_cont() {
    do_cont_state_pipe_test("GroundTruthStatePipe", GroundTruthStatePipe::default())
}

// A pulse travels the whole period untouched: no loss before tick K, the
// full population as loss exactly at tick K, an empty pipe right after.
#[test]
fn test_pipe_pulse_exact() {
    let period: u32 = 7;
    let pulse: u32 = 13;
    let mut pipe = GroundTruthStatePipe::default();
    pipe.set_period(period);
    pipe.step(pulse);
    for tick in 1..period {
        assert_eq!(pipe.loss(), 0, "premature loss at tick {}", tick);
        assert_eq!(pipe.pop(), pulse, "population drifted at tick {}", tick);
        pipe.step(0);
    }
    assert_eq!(pipe.loss(), pulse);
    assert_eq!(pipe.pop(), pulse);
    pipe.step(0);
    assert_eq!(pipe.pop(), 0);
}

// Conservation: the population always equals total gains minus total
// reported losses, exactly.
#[test]
fn test_pipe_conservation_exact() {
    let gains: [u32; 12] = [3, 0, 250, 17, 0, 0, 81, 5, 5, 1000, 0, 42];
    let mut pipe = GroundTruthStatePipe::default();
    pipe.set_period(4);
    let mut admitted: u64 = 0;
    let mut lost: u64 = 0;
    for g in gains {
        lost += pipe.loss() as u64;
        admitted += g as u64;
        pipe.step(g);
        assert_eq!(pipe.pop() as u64, admitted - lost);
    }
}

// Resize safety: the total population is identical immediately before and
// after a period change, shrinking or growing.
#[test]
fn test_set_period_preserves_pop() {
    let mut pipe = GroundTruthStatePipe::default();
    pipe.set_period(5);
    for g in [1u32, 2, 3, 4, 5] {
        pipe.step(g);
    }
    assert_eq!(pipe.pop(), 15);
    pipe.set_period(3);
    assert_eq!(pipe.pop(), 15);
    pipe.set_period(9);
    assert_eq!(pipe.pop(), 15);
    pipe.set_period(1);
    assert_eq!(pipe.pop(), 15);
}

// Shrinking merges the excess oldest cohorts into the remaining oldest
// slot, so they become loss together on the next tick.
#[test]
fn test_set_period_shrink_merges_oldest() {
    let mut pipe = GroundTruthStatePipe::default();
    pipe.set_period(5);
    for g in [1u32, 2, 3, 4, 5] {
        pipe.step(g);
    }
    // ages, oldest first: [1, 2, 3, 4, 5]
    pipe.set_period(3);
    // merged: [1 + 2 + 3, 4, 5]
    assert_eq!(pipe.loss(), 6);
    assert_eq!(pipe.pop(), 15);
    pipe.step(0);
    assert_eq!(pipe.pop(), 9);
    assert_eq!(pipe.loss(), 4);
}

// Culling scales every age bucket independently, rounding down.
#[test]
fn test_cull_pop_scales_buckets() {
    let mut pipe = GroundTruthStatePipe::default();
    pipe.set_period(3);
    pipe.step(10);
    pipe.step(5);
    pipe.step(1);
    // ages, oldest first: [10, 5, 1]
    assert_eq!(pipe.pop(), 16);
    // remove a quarter: keep floor(10 * 3/4), floor(5 * 3/4), floor(1 * 3/4)
    pipe.cull_pop(1, 4);
    assert_eq!(pipe.loss(), 7);
    assert_eq!(pipe.pop(), 10);
}

// A zero denominator stands for a zero fraction: nothing is removed.
#[test]
fn test_cull_pop_zero_total_is_noop() {
    let mut pipe = GroundTruthStatePipe::default();
    pipe.set_period(2);
    pipe.step(9);
    pipe.cull_pop(0, 0);
    assert_eq!(pipe.pop(), 9);
}

// loss() never exceeds pop(), and reading it repeatedly does not mutate.
#[test]
fn test_loss_le_pop_and_pure() {
    let mut pipe = GroundTruthStatePipe::default();
    pipe.set_period(2);
    pipe.step(4);
    pipe.step(6);
    let l1: u32 = pipe.loss();
    let l2: u32 = pipe.loss();
    assert_eq!(l1, l2);
    assert!(l1 <= pipe.pop());
}

// A period of one tick: everything admitted exits on the very next tick.
#[test]
fn test_period_one_pipe() {
    let mut pipe = GroundTruthStatePipe::default();
    pipe.set_period(1);
    pipe.step(5);
    assert_eq!(pipe.loss(), 5);
    assert_eq!(pipe.pop(), 5);
    pipe.step(0);
    assert_eq!(pipe.pop(), 0);
}
