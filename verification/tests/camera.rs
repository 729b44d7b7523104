use gs_rendering::contains_substring;
use gs_rendering::CameraWithPose;
use gs_rendering::ONE_BITS;
use gs_rendering::ZERO_BITS;

fn pose_with_rotation(rotation: [[u32; 3]; 3], position: [u32; 3]) -> CameraWithPose {
    CameraWithPose {
        id: 0,
        img_name: String::from("00001.png"),
        width: 1959,
        height: 1090,
        position,
        rotation,
        fx: 1159.5f32.to_bits(),
        fy: 1164.66f32.to_bits(),
    }
}

#[test]
fn front_tag_is_a_case_sensitive_substring_match() {
    let mut c = pose_with_rotation([[ONE_BITS; 3]; 3], [ZERO_BITS; 3]);

    c.img_name = String::from("00042_FRONT.png");
    assert!(c.is_front_tagged());
    c.img_name = String::from("FRONT");
    assert!(c.is_front_tagged());
    c.img_name = String::from("00042_front.png");
    assert!(!c.is_front_tagged());
    c.img_name = String::from("00042_FRON.png");
    assert!(!c.is_front_tagged());
    c.img_name = String::from("FR_ONT_FRONt_FFRON");
    assert!(!c.is_front_tagged());
    c.img_name = String::from("FFRONT");
    assert!(c.is_front_tagged());
    c.img_name = String::from("");
    assert!(!c.is_front_tagged());
}

#[test]
fn substring_search_edge_cases() {
    assert!(contains_substring("anything", ""));
    assert!(contains_substring("", ""));
    assert!(!contains_substring("", "a"));
    assert!(contains_substring("aaab", "aab"));
    assert!(!contains_substring("aab", "aaab"));
    assert!(contains_substring("abc", "abc"));
}

#[test]
fn bit_pattern_constants_match_ieee754() {
    assert_eq!(ONE_BITS, 1.0f32.to_bits());
    assert_eq!(ZERO_BITS, 0.0f32.to_bits());
}

#[test]
fn identity_pose_gives_identity_transform() {
    let o = ONE_BITS;
    let z = ZERO_BITS;
    let identity = [[o, z, z], [z, o, z], [z, z, o]];
    let c = pose_with_rotation(identity, [z, z, z]);
    let t = c.get_transform();
    assert_eq!(t.rotation, identity);
    assert_eq!(t.translation, [z, z, z]);
    assert_eq!(t.scale, [o, o, o]);
}

#[test]
fn transform_reads_matrix_columns_as_basis() {
    // Nine distinct entries: entry (r, c) holds the bits of r*3 + c.
    let mut rotation = [[0u32; 3]; 3];
    for r in 0..3 {
        for c in 0..3 {
            rotation[r][c] = ((r * 3 + c) as f32).to_bits();
        }
    }
    let position = [1.5f32.to_bits(), 0.25f32.to_bits(), (-2.0f32).to_bits()];
    let t = pose_with_rotation(rotation, position).get_transform();
    // Basis column j of the result is column j of the stored matrix,
    // not row j: a row-wise reading would transpose the rotation.
    for r in 0..3 {
        for c in 0..3 {
            assert_eq!(t.rotation[c][r], rotation[r][c]);
        }
    }
    assert_ne!(t.rotation, rotation);
    assert_eq!(t.translation, position);
    assert_eq!(t.scale, [ONE_BITS; 3]);
}
