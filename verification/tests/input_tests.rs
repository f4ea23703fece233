use pacman_core::input::{GameInput, KEY_DOWN, KEY_LEFT, KEY_RIGHT, KEY_SPACE, KEY_UP};
use pacman_core::sound::SoundAsset;

#[test]
fn arrow_keys_map_to_directions() {
    assert_eq!(GameInput::from_key_code(KEY_UP), GameInput::Up);
    assert_eq!(GameInput::from_key_code(KEY_DOWN), GameInput::Down);
    assert_eq!(GameInput::from_key_code(KEY_LEFT), GameInput::Left);
    assert_eq!(GameInput::from_key_code(KEY_RIGHT), GameInput::Right);
}

#[test]
fn space_maps_to_step() {
    assert_eq!(GameInput::from_key_code(KEY_SPACE), GameInput::Step);
}

#[test]
fn unrecognized_keys_are_ignored() {
    assert_eq!(GameInput::from_key_code(0), GameInput::Nil);
    assert_eq!(GameInput::from_key_code(65), GameInput::Nil);
    assert_eq!(GameInput::from_key_code(KEY_UP + 1), GameInput::Nil);
    assert_eq!(GameInput::from_key_code(u32::MAX), GameInput::Nil);
}

#[test]
fn sound_asset_keeps_samples() {
    let asset = SoundAsset::from_samples(vec![128, 64, 255, 0]);
    assert_eq!(asset.data, vec![128, 64, 255, 0]);
}
