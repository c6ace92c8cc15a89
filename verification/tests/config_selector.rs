use verso_rendering::{gl_config_picker, GraphicsConfig, RenderingError};

fn config(supports_transparency: Option<bool>, num_samples: u8) -> GraphicsConfig {
    GraphicsConfig { supports_transparency, num_samples }
}

#[test]
fn picker_is_deterministic() {
    let configs = vec![
        config(Some(false), 2),
        config(Some(true), 1),
        config(None, 8),
        config(Some(true), 8),
    ];
    let first = gl_config_picker(&configs);
    let second = gl_config_picker(&configs);
    assert_eq!(first, second);
    assert!(first.is_ok());
}

#[test]
fn transparency_dominates() {
    let a = config(Some(false), 4);
    let b = config(Some(true), 1);
    assert_eq!(gl_config_picker(&vec![a, b]), Ok(b));
}

#[test]
fn sample_count_dominates_without_transparency_difference() {
    let a = config(Some(false), 2);
    let b = config(Some(false), 8);
    assert_eq!(gl_config_picker(&vec![a, b]), Ok(b));
}

#[test]
fn first_seen_wins_ties() {
    let a = config(Some(true), 4);
    let b = config(Some(true), 4);
    assert_eq!(gl_config_picker(&vec![a, b]), Ok(a));
}

#[test]
fn empty_candidates_fail() {
    assert_eq!(gl_config_picker(&vec![]), Err(RenderingError::NoAvailableConfig));
}

#[test]
fn unknown_transparency_counts_as_unsupported() {
    let a = config(None, 2);
    let b = config(Some(false), 2);
    assert_eq!(gl_config_picker(&vec![a, b]), Ok(a));

    let c = config(None, 1);
    let d = config(Some(true), 1);
    assert_eq!(gl_config_picker(&vec![c, d]), Ok(d));
}

#[test]
fn later_sample_count_beats_earlier_transparency() {
    let a = config(Some(false), 2);
    let b = config(Some(true), 1);
    let c = config(Some(false), 9);
    assert_eq!(gl_config_picker(&vec![a, b, c]), Ok(c));
}

#[test]
fn single_candidate_is_chosen() {
    let a = config(None, 0);
    assert_eq!(gl_config_picker(&vec![a]), Ok(a));
}
