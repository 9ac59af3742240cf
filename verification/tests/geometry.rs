use framesync::geometry::{cube_faces, cube_indices, flatten_faces};

#[test]
fn cube_has_six_faces_of_six_indices() {
    let faces = cube_faces();
    assert_eq!(faces.len(), 6);
    for f in &faces {
        assert_eq!(f.len(), 6);
    }
}

#[test]
fn cube_indices_exact_values() {
    let flat = cube_indices();
    let expected: Vec<u16> = vec![
        0, 1, 2, 2, 3, 0, // top
        4, 5, 6, 6, 7, 4, // bottom
        0, 1, 4, 4, 5, 1, // first side
        1, 2, 5, 5, 6, 2, // second side
        2, 3, 6, 6, 7, 3, // third side
        3, 0, 7, 7, 4, 0, // fourth side
    ];
    assert_eq!(flat, expected);
}

#[test]
fn cube_indices_in_bounds() {
    let flat = cube_indices();
    assert_eq!(flat.len(), 36);
    for &ix in &flat {
        assert!(ix < 8);
    }
}

#[test]
fn each_face_names_exactly_four_vertices() {
    let faces = cube_faces();
    for f in &faces {
        let mut distinct: Vec<u16> = Vec::new();
        for &ix in f {
            if !distinct.contains(&ix) {
                distinct.push(ix);
            }
        }
        assert_eq!(distinct.len(), 4);
    }
}

#[test]
fn flatten_concatenates_in_order() {
    let faces: Vec<Vec<u16>> = vec![vec![1, 2], vec![3, 4], vec![5, 6]];
    let flat = flatten_faces(&faces, 2);
    assert_eq!(flat, Some(vec![1, 2, 3, 4, 5, 6]));
}

#[test]
fn flatten_rejects_mismatched_face() {
    let faces: Vec<Vec<u16>> = vec![vec![1, 2], vec![3]];
    assert_eq!(flatten_faces(&faces, 2), None);
    let faces2: Vec<Vec<u16>> = vec![vec![1, 2, 3]];
    assert_eq!(flatten_faces(&faces2, 2), None);
}

#[test]
fn flatten_of_nothing_is_empty() {
    let faces: Vec<Vec<u16>> = Vec::new();
    assert_eq!(flatten_faces(&faces, 6), Some(Vec::new()));
}
