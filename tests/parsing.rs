use effect_recipes::config::{ConfigError, ConfigNode};
use effect_recipes::effects::{EffectKind, Effects};
use effect_recipes::hue::{HueDistribution, HueStrategyKind};
use effect_recipes::lum::LumStrategy;
use effect_recipes::media::{Output, SizeConstraint, Source, SourceKind};
use effect_recipes::ordered::{Modifier, Ordered};
use effect_recipes::pattern::{BaseStrategy, Effect};
use effect_recipes::value::ValueProperty;

fn s(t: &str) -> ConfigNode {
    ConfigNode::Str(t.to_string())
}

fn map(entries: Vec<(&str, ConfigNode)>) -> ConfigNode {
    ConfigNode::Mapping(entries.into_iter().map(|(k, v)| (k.to_string(), v)).collect())
}

#[test]
fn real_property_shapes() {
    assert!(matches!(ValueProperty::<i64>::property(&ConfigNode::Int(2)), Ok(ValueProperty::Fixed(2000))));
    assert!(matches!(ValueProperty::<i64>::property(&ConfigNode::Real(1500)), Ok(ValueProperty::Fixed(1500))));
    let range = map(vec![("min", ConfigNode::Int(1)), ("max", ConfigNode::Real(2500))]);
    assert!(matches!(ValueProperty::<i64>::property(&range), Ok(ValueProperty::Range(1000, 2500))));
    let choice = ConfigNode::List(vec![ConfigNode::Int(1), ConfigNode::Real(500)]);
    match ValueProperty::<i64>::property(&choice) {
        Ok(ValueProperty::Choice(v)) => assert_eq!(v, vec![1000, 500]),
        _ => panic!("expected a choice"),
    }
    assert!(matches!(ValueProperty::<i64>::property(&s("x")), Err(ConfigError::Malformed(_))));
    let inverted = map(vec![("min", ConfigNode::Int(3)), ("max", ConfigNode::Int(1))]);
    assert!(ValueProperty::<i64>::property(&inverted).is_err());
    assert!(ValueProperty::<i64>::property(&ConfigNode::List(vec![])).is_err());
}

#[test]
fn count_property_shapes() {
    assert!(matches!(ValueProperty::<usize>::property(&ConfigNode::Int(4)), Ok(ValueProperty::Fixed(4))));
    assert!(ValueProperty::<usize>::property(&ConfigNode::Int(-4)).is_err());
    assert!(ValueProperty::<usize>::property(&ConfigNode::Real(4000)).is_err());
    let range = map(vec![("min", ConfigNode::Int(2)), ("max", ConfigNode::Int(5))]);
    assert!(matches!(ValueProperty::<usize>::property(&range), Ok(ValueProperty::Range(2, 5))));
}

#[test]
fn hue_strategy_from_config() {
    let node = map(vec![
        ("type", s("neighbour")),
        ("size", ConfigNode::Int(15)),
        ("count", ConfigNode::Int(3)),
        ("distribution", s("linear")),
    ]);
    match HueStrategyKind::from_value(&node) {
        Ok(HueStrategyKind::Neighbour { size, count, distribution }) => {
            assert!(matches!(size, ValueProperty::Fixed(15_000)));
            assert!(matches!(count, ValueProperty::Fixed(3)));
            assert_eq!(distribution, HueDistribution::Linear);
        }
        _ => panic!("expected a neighbour strategy"),
    }
    let unknown = map(vec![("type", s("spiral")), ("count", ConfigNode::Int(3))]);
    assert!(matches!(HueStrategyKind::from_value(&unknown), Err(ConfigError::Malformed(_))));
}

#[test]
fn lum_strategy_from_config() {
    let node = map(vec![("type", s("distributed")), ("count", ConfigNode::Int(3))]);
    let strategy = LumStrategy::from_value(&node).unwrap();
    assert_eq!(strategy.attach_lums(&vec![0]), vec![(0, 0), (50_000, 0), (100_000, 0)]);
    let missing = map(vec![("type", s("distributed"))]);
    assert!(LumStrategy::from_value(&missing).is_err());
}

#[test]
fn pattern_from_config() {
    let node = map(vec![("bayer", map(vec![("matrix-size", ConfigNode::Int(8))]))]);
    let effect = Effect::from_value(&node).unwrap();
    assert_eq!(effect.generate_effect(), BaseStrategy::Bayer(8));
    let plain = map(vec![("grid", ConfigNode::Null)]);
    assert_eq!(Effect::from_value(&plain).unwrap().generate_effect(), BaseStrategy::Grid);
    let unknown = map(vec![("plaid", ConfigNode::Null)]);
    assert!(Effect::from_value(&unknown).is_err());
}

fn palette_node() -> ConfigNode {
    map(vec![(
        "config",
        map(vec![
            ("lum-strategy", map(vec![("type", s("exact")), ("lum", ConfigNode::Int(40))])),
            ("chroma-strategy", map(vec![("type", s("random"))])),
            ("hue-strategies", ConfigNode::List(vec![map(vec![("type", s("cycle")), ("count", ConfigNode::Int(3))])])),
            ("misc-flags", ConfigNode::List(vec![s("extremes")])),
        ]),
    )])
}

#[test]
fn ordered_from_config() {
    let node = map(vec![(
        "ordered",
        map(vec![
            ("strategies", ConfigNode::List(vec![map(vec![("stars", ConfigNode::Null)])])),
            ("invert", map(vec![("chance", ConfigNode::Int(1))])),
            ("palette", palette_node()),
        ]),
    )]);
    let ordered = Ordered::from_value(&node).unwrap();
    let (colours, recipe) = ordered.generate_effect();
    assert_eq!(recipe.base, BaseStrategy::Stars);
    assert_eq!(recipe.modifiers, vec![Modifier::Invert]);
    assert_eq!(colours.len(), 5);
    assert!(colours[..3].iter().all(|c| c.l == 40_000));
}

#[test]
fn absent_chances_never_fire() {
    let node = map(vec![(
        "ordered",
        map(vec![
            ("strategies", ConfigNode::List(vec![map(vec![("grid", ConfigNode::Null)])])),
            ("invert", ConfigNode::Mapping(vec![])),
            ("blur", map(vec![("factor", ConfigNode::Int(3))])),
            ("mirror", map(vec![("directions", ConfigNode::List(vec![ConfigNode::List(vec![s("vertical")])]))])),
            ("palette", palette_node()),
        ]),
    )]);
    let ordered = Ordered::from_value(&node).unwrap();
    for _ in 0..200 {
        let (_, recipe) = ordered.generate_effect();
        assert!(recipe.modifiers.is_empty());
    }
}

#[test]
fn unknown_pattern_is_malformed() {
    let node = map(vec![("plaid", ConfigNode::Null)]);
    assert!(matches!(Effect::from_value(&node), Err(ConfigError::Malformed(_))));
}

#[test]
fn gradient_map_is_unsupported() {
    let node = map(vec![("gradient-map", ConfigNode::Null)]);
    assert!(matches!(EffectKind::from_value(&node), Err(ConfigError::Unsupported(_))));
    let unknown = map(vec![("sharpen", ConfigNode::Null)]);
    assert!(matches!(EffectKind::from_value(&unknown), Err(ConfigError::Malformed(_))));
}

#[test]
fn effects_list_from_config() {
    let node = map(vec![(
        "effects",
        ConfigNode::List(vec![
            map(vec![("brighten", map(vec![("factor", ConfigNode::Real(250))]))]),
            map(vec![("quantize-hue", ConfigNode::Null), ("hues", ConfigNode::List(vec![ConfigNode::Int(30)]))]),
        ]),
    )]);
    let effects = Effects::from_value(&node).unwrap();
    assert_eq!(effects.kinds.len(), 2);
    let drawn = effects.generate_all();
    assert_eq!(drawn.len(), 2);
}

#[test]
fn source_and_output_from_config() {
    let node = map(vec![
        ("source", map(vec![("url", s("http://host/img?id=3&width=640&height=480")), ("max-dim", ConfigNode::Int(512))])),
        ("output", map(vec![("path", s("out")), ("n", ConfigNode::Int(4))])),
    ]);
    let source = Source::from_value(&node).unwrap();
    assert_eq!(source.kind.get_path(), "http://host/img?id=3");
    assert!(matches!(source.kind, SourceKind::Url(_)));
    assert_eq!(source.constraint, Some(SizeConstraint::MaxDim(512)));
    let output = Output::from_value(&node).unwrap();
    assert_eq!(output.path, "out");
    assert_eq!(output.n, 4);
    let both = map(vec![("source", map(vec![("url", s("a")), ("file", s("b"))]))]);
    assert!(Source::from_value(&both).is_err());
}
