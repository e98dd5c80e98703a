use effect_recipes::hue::{HueDistribution, HueStrategies, HueStrategyKind};
use effect_recipes::lum::{LumStrategy, LumStrategyKind};
use effect_recipes::value::{Chance, ValueProperty};
use effect_recipes::weighted::{pick_index, Weighted};

#[test]
fn cycle_of_three_from_seed_zero() {
    let cycle = HueStrategyKind::Cycle { count: ValueProperty::Fixed(3) };
    assert_eq!(cycle.execute_with_seed_hue(0), vec![90_000, 180_000, 270_000]);
}

#[test]
fn stack_distributed_three_over_single_hue() {
    let kind = LumStrategyKind::StackDistributed { stacks: ValueProperty::Fixed(3) };
    let pairs = kind.generate(&vec![0], 0, 100_000);
    assert_eq!(pairs, vec![(0, 0), (50_000, 0), (100_000, 0)]);
}

#[test]
fn stack_distributed_default_clamp() {
    let strategy = LumStrategy {
        kind: LumStrategyKind::StackDistributed { stacks: ValueProperty::Fixed(3) },
        min_lum: None,
        max_lum: None,
    };
    assert_eq!(strategy.attach_lums(&vec![0]), vec![(0, 0), (50_000, 0), (100_000, 0)]);
}

#[test]
fn range_values_stay_in_half_open_range() {
    let v: ValueProperty<usize> = ValueProperty::Range(3, 7);
    for _ in 0..1000 {
        let x = v.generate();
        assert!((3..7).contains(&x));
    }
    let r: ValueProperty<i64> = ValueProperty::Range(-500, 500);
    for _ in 0..1000 {
        let x = r.generate();
        assert!((-500..500).contains(&x));
    }
}

#[test]
fn choice_values_are_members() {
    let v: ValueProperty<i64> = ValueProperty::Choice(vec![2, 4, 8]);
    for _ in 0..500 {
        assert!([2, 4, 8].contains(&v.generate()));
    }
}

#[test]
fn weighted_frequencies_follow_weights() {
    let w = Weighted::Ratios(vec![(1000u64, 'a'), (3000u64, 'b')]);
    let mut b = 0;
    let trials = 20_000;
    for _ in 0..trials {
        if *w.select() == 'b' {
            b += 1;
        }
    }
    let freq = b as f64 / trials as f64;
    assert!((freq - 0.75).abs() < 0.03, "frequency {freq}");
}

#[test]
fn scan_pick_boundaries() {
    let ws = vec![(2u64, 0u8), (3u64, 1u8), (5u64, 2u8)];
    assert_eq!(pick_index(&ws, 1), 0);
    assert_eq!(pick_index(&ws, 2), 0);
    assert_eq!(pick_index(&ws, 3), 1);
    assert_eq!(pick_index(&ws, 5), 1);
    assert_eq!(pick_index(&ws, 6), 2);
    assert_eq!(pick_index(&ws, 10), 2);
    assert_eq!(pick_index(&ws, 11), 2);
}

#[test]
fn closed_gate_never_passes() {
    let gate = Chance::new(ValueProperty::Fixed(0));
    for _ in 0..1000 {
        assert!(!gate.roll());
    }
    let open = Chance::new(ValueProperty::Fixed(1000));
    for _ in 0..1000 {
        assert!(open.roll());
    }
}

#[test]
fn hue_strategies_concatenate_in_order() {
    let set = HueStrategies {
        kinds: vec![
            HueStrategyKind::Cycle { count: ValueProperty::Fixed(1) },
            HueStrategyKind::Neighbour {
                size: ValueProperty::Fixed(10_000),
                count: ValueProperty::Fixed(3),
                distribution: HueDistribution::Linear,
            },
        ],
    };
    let hues = set.generate_hues_with_seed(20_000);
    assert_eq!(hues, vec![200_000, 10_000, 20_000, 30_000]);
}
