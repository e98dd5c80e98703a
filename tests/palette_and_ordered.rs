use effect_recipes::chroma::{ChromaStrategy, ChromaStrategyKind};
use effect_recipes::effects::{ConcreteEffect, EffectKind, Effects, Brighten};
use effect_recipes::hue::{HueStrategies, HueStrategyKind};
use effect_recipes::lum::{LumStrategy, LumStrategyKind};
use effect_recipes::ordered::{
    assemble, Blur, Checker, CheckerKind, CheckerType, Exponentiate, Invert, Mirror,
    MirrorDirection, MirrorLine, Modifier, Ordered, Rotation, RotationDirection,
};
use effect_recipes::palette::{LchColor, MiscFlags, Palette, PaletteConfig};
use effect_recipes::pattern::{BaseStrategy, Effect};
use effect_recipes::value::{Chance, ValueProperty};

fn palette(extremes: bool) -> Palette {
    Palette {
        config: PaletteConfig {
            lum_strategy: LumStrategy {
                kind: LumStrategyKind::StackDistributed { stacks: ValueProperty::Fixed(2) },
                min_lum: None,
                max_lum: None,
            },
            chroma_strategy: ChromaStrategy { kind: ChromaStrategyKind::Random },
            hue_strategies: HueStrategies {
                kinds: vec![HueStrategyKind::Cycle { count: ValueProperty::Fixed(2) }],
            },
            misc_flag: MiscFlags { extremes },
        },
    }
}

fn ordered_with_gates(threshold: i64) -> Ordered {
    let gate = || Chance::new(ValueProperty::Fixed(threshold));
    Ordered {
        strategies: vec![Effect::Bayer { matrix_size: ValueProperty::Fixed(4) }],
        blur: Some(Blur { chance: gate(), factor: ValueProperty::Fixed(2) }),
        exponentiate: Some(Exponentiate { chance: gate(), factor: ValueProperty::Fixed(1500) }),
        rotation: Some(Rotation { chance: gate(), values: vec![RotationDirection::LEFT] }),
        checker: Some(Checker { chance: gate(), kind: CheckerKind::Iter(ValueProperty::Fixed(3)) }),
        invert: Some(Invert { chance: gate() }),
        mirror: Some(Mirror {
            flip: Chance::new(ValueProperty::Fixed(0)),
            thorough: Chance::new(ValueProperty::Fixed(0)),
            chance: gate(),
            directions: vec![vec![MirrorDirection::Vertical, MirrorDirection::Horizontal]],
        }),
        palette: palette(false),
    }
}

#[test]
fn extremes_append_black_and_white() {
    for _ in 0..50 {
        let with = palette(true).generate();
        assert_eq!(with.len(), 6);
        assert_eq!(with[4], LchColor { l: 0, chroma: 0, hue: 0 });
        assert_eq!(with[5], LchColor { l: 100_000, chroma: 0, hue: 0 });
        let without = palette(false).generate();
        assert_eq!(without.len(), 4);
    }
}

#[test]
fn palette_colours_follow_the_stages() {
    let colours = palette(false).generate();
    let lums: Vec<i64> = colours.iter().map(|c| c.l).collect();
    assert_eq!(lums, vec![0, 100_000, 0, 100_000]);
    assert_eq!(colours[0].hue, colours[1].hue);
    assert_eq!((colours[2].hue - colours[0].hue), 120_000);
    for c in colours {
        assert!((0..128_000).contains(&c.chroma));
    }
}

#[test]
fn closed_gates_append_no_modifier() {
    let o = ordered_with_gates(0);
    for _ in 0..200 {
        let (_, recipe) = o.generate_effect();
        assert_eq!(recipe.base, BaseStrategy::Bayer(4));
        assert!(recipe.modifiers.is_empty());
    }
}

#[test]
fn open_gates_append_every_modifier_in_order() {
    let o = ordered_with_gates(1000);
    for _ in 0..50 {
        let (colours, recipe) = o.generate_effect();
        assert_eq!(colours.len(), 4);
        assert_eq!(
            recipe.modifiers,
            vec![
                Modifier::Blur(2),
                Modifier::Exponentiate(1500),
                Modifier::Rotate(RotationDirection::LEFT),
                Modifier::Checker(CheckerType::Iter(3)),
                Modifier::Invert,
                Modifier::Mirror(MirrorLine {
                    direction: MirrorDirection::Vertical,
                    flip: false,
                    thorough: false,
                }),
                Modifier::Mirror(MirrorLine {
                    direction: MirrorDirection::Horizontal,
                    flip: false,
                    thorough: false,
                }),
            ]
        );
    }
}

#[test]
fn assemble_keeps_the_fixed_order() {
    let line = MirrorLine { direction: MirrorDirection::Upright, flip: true, thorough: false };
    let r = assemble(BaseStrategy::Grid, None, Some(7), None, None, true, vec![line]);
    assert_eq!(r.base, BaseStrategy::Grid);
    assert_eq!(
        r.modifiers,
        vec![Modifier::Exponentiate(7), Modifier::Invert, Modifier::Mirror(line)]
    );
    let empty = assemble(BaseStrategy::Stars, None, None, None, None, false, vec![]);
    assert!(empty.modifiers.is_empty());
}

#[test]
fn generate_all_draws_afresh_each_time() {
    let effects = Effects {
        kinds: vec![
            EffectKind::Brighten(Brighten(ValueProperty::Range(0, 1_000_000_000_000_000))),
            EffectKind::Brighten(Brighten(ValueProperty::Fixed(250))),
        ],
    };
    let first = effects.generate_all();
    let second = effects.generate_all();
    assert_eq!(first.len(), 2);
    assert_eq!(second.len(), 2);
    let (a, b) = match (&first[0], &second[0]) {
        (ConcreteEffect::Brighten(a), ConcreteEffect::Brighten(b)) => (*a, *b),
        _ => panic!("wrong effect kind"),
    };
    assert_ne!(a, b);
    assert!(matches!(first[1], ConcreteEffect::Brighten(250)));
    assert!(matches!(second[1], ConcreteEffect::Brighten(250)));
}
