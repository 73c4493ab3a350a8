use ole::chroma::rotate_chroma;

#[test]
fn test_rotate_chroma() {
    let chroma = [
        1.0, 2.0, 3.0, 4.0, 5.0, 6.0, 7.0, 8.0, 9.0, 10.0, 11.0, 12.0,
    ];

    // Rotate by 0 should give same array
    let rotated = rotate_chroma(&chroma, 0);
    assert_eq!(rotated, chroma);

    // Rotate by 1
    let rotated = rotate_chroma(&chroma, 1);
    assert_eq!(rotated[0], 2.0); // Was at index 1
    assert_eq!(rotated[11], 1.0); // Was at index 0
}

#[test]
fn rotations_add_up_modulo_twelve() {
    let chroma: [u32; 12] = [0, 1, 2, 3, 4, 5, 6, 7, 8, 9, 10, 11];
    let twice = rotate_chroma(&rotate_chroma(&chroma, 7), 9);
    assert_eq!(twice, rotate_chroma(&chroma, 4));
    assert_eq!(rotate_chroma(&chroma, 12), chroma);
    assert_eq!(rotate_chroma(&chroma, 5), [5, 6, 7, 8, 9, 10, 11, 0, 1, 2, 3, 4]);
}

#[test]
fn rotation_by_large_root_wraps() {
    let chroma: [u8; 12] = [10, 11, 12, 13, 14, 15, 16, 17, 18, 19, 20, 21];
    let r = rotate_chroma(&chroma, 255);
    // 255 mod 12 = 3
    assert_eq!(r[0], 13);
    assert_eq!(r[11], 12);
}
