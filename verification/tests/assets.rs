//! Geometry, bind-group layout and texture preparation.

use orbit_cube::geometry::{cube_indices, cube_vertices};
use orbit_cube::layout::{uniform_layout, BindingKind, ShaderStage};
use orbit_cube::texture::{flip_vertical, prepare_texture};

#[test]
fn the_cube_has_24_vertices_and_36_indices() {
    assert_eq!(cube_vertices().len(), 24);
    assert_eq!(cube_indices().len(), 36);
}

#[test]
fn every_index_points_at_a_vertex() {
    let n = cube_vertices().len() as u16;
    for i in cube_indices() {
        assert!(i < n);
    }
}

#[test]
fn each_face_is_two_triangles_over_its_four_corners() {
    let idx = cube_indices();
    for f in 0..6u16 {
        let base = 4 * f;
        let got = &idx[(6 * f) as usize..(6 * f + 6) as usize];
        assert_eq!(got, &[base, base + 1, base + 2, base, base + 2, base + 3]);
    }
}

#[test]
fn the_first_face_points_along_positive_x() {
    let v = cube_vertices();
    for corner in &v[0..4] {
        assert_eq!((corner.normal.x, corner.normal.y, corner.normal.z), (1, 0, 0));
        assert_eq!(corner.position.x, 1);
    }
    assert_eq!((v[0].position.y, v[0].position.z), (-1, -1));
}

#[test]
fn the_layout_binds_the_three_uniform_blocks_and_the_texture() {
    let l = uniform_layout();
    assert_eq!(l.len(), 5);
    for (i, e) in l.iter().enumerate() {
        assert_eq!(e.binding, i as u32);
    }
    assert_eq!(l[0].kind, BindingKind::UniformBuffer { min_size: 64 });
    assert_eq!(l[0].visibility, ShaderStage::Vertex);
    assert_eq!(l[1].kind, BindingKind::UniformBuffer { min_size: 64 });
    assert_eq!(l[1].visibility, ShaderStage::Vertex);
    assert_eq!(l[2].kind, BindingKind::UniformBuffer { min_size: 32 });
    assert_eq!(l[2].visibility, ShaderStage::Fragment);
    assert_eq!(l[3].kind, BindingKind::Texture2d);
    assert_eq!(l[4].kind, BindingKind::Sampler);
}

#[test]
fn flipping_exchanges_the_rows() {
    let pixels = vec![1, 2, 3, 4, 5, 6, 7, 8];
    assert_eq!(flip_vertical(1, 2, &pixels), vec![5, 6, 7, 8, 1, 2, 3, 4]);
}

#[test]
fn flipping_keeps_columns_in_place() {
    let pixels: Vec<u8> = (0..24).collect();
    let flipped = flip_vertical(2, 3, &pixels);
    let mut expected: Vec<u8> = Vec::new();
    expected.extend_from_slice(&pixels[16..24]);
    expected.extend_from_slice(&pixels[8..16]);
    expected.extend_from_slice(&pixels[0..8]);
    assert_eq!(flipped, expected);
}

#[test]
fn flipping_a_single_row_changes_nothing() {
    let pixels = vec![9, 8, 7, 6, 5, 4, 3, 2];
    assert_eq!(flip_vertical(2, 1, &pixels), pixels);
}

#[test]
fn a_decoded_png_comes_back_flipped() {
    // A 1x2 image: red on top, green below. After decoding and flipping,
    // the green pixel comes first.
    let img = image::RgbaImage::from_raw(1, 2, vec![255, 0, 0, 255, 0, 255, 0, 255]).unwrap();
    let mut png: Vec<u8> = Vec::new();
    image::DynamicImage::ImageRgba8(img)
        .write_to(&mut std::io::Cursor::new(&mut png), image::ImageFormat::Png)
        .unwrap();

    let t = prepare_texture(&png).unwrap();
    assert_eq!((t.width, t.height), (1, 2));
    assert_eq!(t.pixels, vec![0, 255, 0, 255, 255, 0, 0, 255]);
}

#[test]
fn bytes_that_are_no_image_give_nothing() {
    assert!(prepare_texture(b"not an image at all").is_none());
}
