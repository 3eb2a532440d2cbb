use moonshine::compositor::scaling::{filter_from_atom_value, TextureFilter, UpscaleScaler};

#[test]
fn atom_values() {
    assert_eq!(UpscaleScaler::from_atom_value(0), UpscaleScaler::Auto);
    assert_eq!(UpscaleScaler::from_atom_value(1), UpscaleScaler::Integer);
    assert_eq!(UpscaleScaler::from_atom_value(2), UpscaleScaler::Fit);
    assert_eq!(UpscaleScaler::from_atom_value(3), UpscaleScaler::Fill);
    assert_eq!(UpscaleScaler::from_atom_value(4), UpscaleScaler::Stretch);
}

#[test]
fn filter_atom_values() {
    assert_eq!(filter_from_atom_value(0), TextureFilter::Linear);
    assert_eq!(filter_from_atom_value(1), TextureFilter::Nearest);
    assert_eq!(filter_from_atom_value(2), TextureFilter::Linear);
    assert_eq!(filter_from_atom_value(3), TextureFilter::Linear);
    assert_eq!(filter_from_atom_value(4), TextureFilter::Nearest);
}

#[test]
fn settings_name_a_mode_or_its_value() {
    let named = |setting| UpscaleScaler::from_env(Some(setting));
    assert_eq!(UpscaleScaler::from_env(None), UpscaleScaler::default());
    assert_eq!(named(" fit\n"), UpscaleScaler::Fit);
    assert_eq!(named("integer"), UpscaleScaler::Integer);
    assert_eq!(named("fill"), UpscaleScaler::Fill);
    assert_eq!(named("stretch"), UpscaleScaler::Stretch);
    assert_eq!(named("3"), UpscaleScaler::Fill);
    assert_eq!(named("9"), UpscaleScaler::Auto);
    assert_eq!(named("Fit"), UpscaleScaler::Auto);
}
