use easysplash::animation::{Animation, ClipMode, Part};
use easysplash::error::ConfigError;

fn valid_toml() -> Animation {
    Animation::parse(
        "[[part]]\n\
         file = \"part1.mp4\"\n\
         \n\
         [[part]]\n\
         file = \"part2.mp4\"\n\
         repeat = 1\n\
         \n\
         [[part]]\n\
         file = \"part3.mp4\"\n\
         mode = \"interruptable\"\n",
    )
    .expect("Failed to parse TOML")
}

#[test]
fn forever_mode_must_be_last_part() {
    let animation = Animation::parse(
        "[[part]]\n\
         file = \"part1.mp4\"\n\
         mode = \"forever\"\n\
         \n\
         [[part]]\n\
         file = \"part2.mp4\"\n",
    )
    .expect("Failed to parse TOML");

    animation.validate_modes().unwrap_err();
}

#[test]
fn manifest_parse() {
    assert_eq!(
        valid_toml(),
        Animation {
            parts: vec![
                Part { file: "part1.mp4".to_string(), mode: ClipMode::Complete, repeat: 0 },
                Part { file: "part2.mp4".to_string(), mode: ClipMode::Complete, repeat: 1 },
                Part { file: "part3.mp4".to_string(), mode: ClipMode::Interruptable, repeat: 0 },
            ]
        }
    );
}

#[test]
fn iterator_takes_repeat_under_consideration_when_returning() {
    let animation = valid_toml();
    let mut animation = animation.into_iter();

    assert_eq!(
        animation.next(),
        Some(Part { file: "part1.mp4".to_string(), mode: ClipMode::Complete, repeat: 0 })
    );

    assert_eq!(
        animation.next(),
        Some(Part { file: "part2.mp4".to_string(), mode: ClipMode::Complete, repeat: 1 })
    );

    assert_eq!(
        animation.next(),
        Some(Part { file: "part2.mp4".to_string(), mode: ClipMode::Complete, repeat: 1 })
    );

    assert_eq!(
        animation.next(),
        Some(Part { file: "part3.mp4".to_string(), mode: ClipMode::Interruptable, repeat: 0 })
    );
}

#[test]
fn part_with_mode_forever_keeps_returning_on_iter() {
    let animation = Animation::parse(
        "[[part]]\n\
         file = \"part1.mp4\"\n\
         \n\
         [[part]]\n\
         file = \"part2.mp4\"\n\
         mode = \"forever\"\n",
    )
    .expect("Failed to parse TOML");

    let mut animation = animation.into_iter();

    assert_eq!(
        animation.next(),
        Some(Part { file: "part1.mp4".to_string(), mode: ClipMode::Complete, repeat: 0 })
    );

    assert_eq!(
        animation.next(),
        Some(Part { file: "part2.mp4".to_string(), mode: ClipMode::Forever, repeat: 0 })
    );

    assert_eq!(
        animation.next(),
        Some(Part { file: "part2.mp4".to_string(), mode: ClipMode::Forever, repeat: 0 })
    );
}

#[test]
fn unknown_clip_field_is_rejected() {
    let r = Animation::parse("[[part]]\nfile = \"a.mp4\"\nlength = 3\n");
    assert!(matches!(r, Err(ConfigError::ParseError)));
}

#[test]
fn unknown_top_level_field_is_rejected() {
    let r = Animation::parse("title = \"x\"\n\n[[part]]\nfile = \"a.mp4\"\n");
    assert!(matches!(r, Err(ConfigError::ParseError)));
}

#[test]
fn missing_part_list_is_rejected() {
    let r = Animation::parse("");
    assert!(matches!(r, Err(ConfigError::ParseError)));
}

#[test]
fn missing_file_field_is_rejected() {
    let r = Animation::parse("[[part]]\nrepeat = 1\n");
    assert!(matches!(r, Err(ConfigError::ParseError)));
}

#[test]
fn unknown_mode_name_is_rejected() {
    let r = Animation::parse("[[part]]\nfile = \"a.mp4\"\nmode = \"loop\"\n");
    assert!(matches!(r, Err(ConfigError::ParseError)));
}

#[test]
fn negative_repeat_is_rejected() {
    let r = Animation::parse("[[part]]\nfile = \"a.mp4\"\nrepeat = -1\n");
    assert!(matches!(r, Err(ConfigError::ParseError)));
}

#[test]
fn wrongly_typed_fields_are_rejected() {
    assert!(matches!(
        Animation::parse("[[part]]\nfile = 3\n"),
        Err(ConfigError::ParseError)
    ));
    assert!(matches!(
        Animation::parse("[[part]]\nfile = \"a.mp4\"\nrepeat = \"twice\"\n"),
        Err(ConfigError::ParseError)
    ));
    assert!(matches!(
        Animation::parse("[[part]]\nfile = \"a.mp4\"\nmode = 1\n"),
        Err(ConfigError::ParseError)
    ));
}

#[test]
fn malformed_document_is_rejected() {
    let r = Animation::parse("[[part\nfile =");
    assert!(matches!(r, Err(ConfigError::ParseError)));
}

#[test]
fn empty_part_list_parses_to_zero_clips() {
    let animation = Animation::parse("part = []\n").expect("Failed to parse TOML");
    assert_eq!(animation, Animation { parts: vec![] });
}

#[test]
fn mode_defaults_to_complete() {
    assert_eq!(ClipMode::default(), ClipMode::Complete);
}

#[test]
fn url_prefixes_the_file_scheme() {
    let part = Part {
        file: "/opt/animation/part1.mp4".to_string(),
        mode: ClipMode::Complete,
        repeat: 0,
    };
    assert_eq!(part.url(), "file:///opt/animation/part1.mp4");
}

#[test]
fn interruptable_and_forever_modes_allow_interrupts() {
    let complete = Part { file: "a".to_string(), mode: ClipMode::Complete, repeat: 0 };
    let interruptable = Part { file: "a".to_string(), mode: ClipMode::Interruptable, repeat: 0 };
    let forever = Part { file: "a".to_string(), mode: ClipMode::Forever, repeat: 0 };
    assert!(!complete.is_interruptable());
    assert!(interruptable.is_interruptable());
    assert!(forever.is_interruptable());
}

#[test]
fn resolve_sources_installs_absolute_paths() {
    let mut animation = Animation {
        parts: vec![
            Part { file: "a.mp4".to_string(), mode: ClipMode::Complete, repeat: 0 },
            Part { file: "b.mp4".to_string(), mode: ClipMode::Interruptable, repeat: 2 },
        ],
    };
    let sources = vec!["/anim/a.mp4".to_string(), "/anim/b.mp4".to_string()];
    let present = vec![true, true];
    animation.resolve_sources(sources, &present).unwrap();
    assert_eq!(
        animation,
        Animation {
            parts: vec![
                Part { file: "/anim/a.mp4".to_string(), mode: ClipMode::Complete, repeat: 0 },
                Part { file: "/anim/b.mp4".to_string(), mode: ClipMode::Interruptable, repeat: 2 },
            ]
        }
    );
}

#[test]
fn missing_asset_fails_eagerly_naming_the_path() {
    let mut animation = Animation {
        parts: vec![
            Part { file: "a.mp4".to_string(), mode: ClipMode::Complete, repeat: 0 },
            Part { file: "b.mp4".to_string(), mode: ClipMode::Complete, repeat: 0 },
        ],
    };
    let sources = vec!["/anim/a.mp4".to_string(), "/anim/b.mp4".to_string()];
    let present = vec![true, false];
    let err = animation.resolve_sources(sources, &present).unwrap_err();
    assert!(matches!(err, ConfigError::MissingAssetError(p) if p == "/anim/b.mp4"));
}

#[test]
fn validate_modes_accepts_forever_as_last() {
    let animation = Animation {
        parts: vec![
            Part { file: "a.mp4".to_string(), mode: ClipMode::Complete, repeat: 0 },
            Part { file: "b.mp4".to_string(), mode: ClipMode::Forever, repeat: 0 },
        ],
    };
    animation.validate_modes().unwrap();
}
