use easysplash::animation::{Animation, ClipMode, Part};

fn clip(name: &str, mode: ClipMode, repeat: usize) -> Part {
    Part { file: name.to_string(), mode, repeat }
}

#[test]
fn empty_animation_yields_nothing() {
    let animation = Animation { parts: vec![] };
    let mut iter = animation.into_iter();
    assert_eq!(iter.next(), None);
    assert_eq!(iter.next(), None);
}

#[test]
fn scenario_complete_complete_interruptable_order() {
    let animation = Animation {
        parts: vec![
            clip("a", ClipMode::Complete, 0),
            clip("b", ClipMode::Complete, 1),
            clip("c", ClipMode::Interruptable, 0),
        ],
    };
    let mut iter = animation.into_iter();
    let mut order: Vec<String> = Vec::new();
    while let Some(part) = iter.next() {
        order.push(part.file);
    }
    assert_eq!(order, vec!["a", "b", "b", "c"]);
}

#[test]
fn yield_count_is_the_sum_of_repeats_plus_one() {
    let repeats = [2usize, 0, 3, 1];
    let animation = Animation {
        parts: repeats
            .iter()
            .map(|&r| clip("x", ClipMode::Complete, r))
            .collect(),
    };
    let mut iter = animation.into_iter();
    let mut count = 0usize;
    while iter.next().is_some() {
        count += 1;
    }
    let expected: usize = repeats.iter().map(|&r| r + 1).sum();
    assert_eq!(count, expected);
}

#[test]
fn single_clip_repeats_consecutively() {
    let animation = Animation { parts: vec![clip("only", ClipMode::Complete, 2)] };
    let mut iter = animation.into_iter();
    assert_eq!(iter.next().map(|p| p.file), Some("only".to_string()));
    assert_eq!(iter.next().map(|p| p.file), Some("only".to_string()));
    assert_eq!(iter.next().map(|p| p.file), Some("only".to_string()));
    assert_eq!(iter.next(), None);
}
