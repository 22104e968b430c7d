use metronome::engine::ClickRole;
use metronome::sounds::{asset_name, ClickSounds, LoadError};

#[test]
fn asset_names_per_role() {
    assert_eq!(asset_name(ClickRole::Accent), "bright.wav");
    assert_eq!(asset_name(ClickRole::Regular), "high.wav");
}

#[test]
fn sounds_are_served_by_role_and_position() {
    let s = ClickSounds::new(vec![1, 2, 3], vec![9, 8]);
    assert_eq!(s.get(ClickRole::Accent), &[1, 2, 3]);
    assert_eq!(s.get(ClickRole::Regular), &[9, 8]);
    assert_eq!(s.for_position(1), &[1, 2, 3]);
    assert_eq!(s.for_position(2), &[9, 8]);
    assert_eq!(s.for_position(4), &[9, 8]);
}

#[test]
fn missing_assets_are_reported() {
    assert_eq!(
        ClickSounds::from_assets(None, Some(vec![1])).err(),
        Some(LoadError::Missing(ClickRole::Accent))
    );
    assert_eq!(
        ClickSounds::from_assets(None, None).err(),
        Some(LoadError::Missing(ClickRole::Accent))
    );
    assert_eq!(
        ClickSounds::from_assets(Some(vec![1]), None).err(),
        Some(LoadError::Missing(ClickRole::Regular))
    );
    let s = ClickSounds::from_assets(Some(vec![5]), Some(vec![6, 7])).ok().unwrap();
    assert_eq!(s.get(ClickRole::Accent), &[5]);
    assert_eq!(s.get(ClickRole::Regular), &[6, 7]);
}
