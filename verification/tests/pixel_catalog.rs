use texture_core::pixel::{
    ceil_div_4, checked_image_1d_size_bytes, checked_image_2d_size_bytes,
    checked_image_3d_size_bytes, image_1d_size_bytes, image_2d_size_bytes, image_3d_size_bytes,
    PixelElementKind, PixelKind,
};

const ALL_KINDS: [PixelKind; 35] = [
    PixelKind::R32F,
    PixelKind::R32UI,
    PixelKind::R16F,
    PixelKind::D32F,
    PixelKind::D16,
    PixelKind::D24S8,
    PixelKind::RGBA8,
    PixelKind::SRGBA8,
    PixelKind::RGB8,
    PixelKind::SRGB8,
    PixelKind::BGRA8,
    PixelKind::BGR8,
    PixelKind::RG8,
    PixelKind::LA8,
    PixelKind::LA16,
    PixelKind::RG16,
    PixelKind::R8,
    PixelKind::L8,
    PixelKind::L16,
    PixelKind::R8UI,
    PixelKind::R16,
    PixelKind::RGB16,
    PixelKind::RGBA16,
    PixelKind::DXT1RGB,
    PixelKind::DXT1RGBA,
    PixelKind::DXT3RGBA,
    PixelKind::DXT5RGBA,
    PixelKind::RGB32F,
    PixelKind::RGBA32F,
    PixelKind::RGB16F,
    PixelKind::RGBA16F,
    PixelKind::R8RGTC,
    PixelKind::RG8RGTC,
    PixelKind::R11G11B10F,
    PixelKind::RGB10A2,
];

const COMPRESSED: [PixelKind; 6] = [
    PixelKind::DXT1RGB,
    PixelKind::DXT1RGBA,
    PixelKind::DXT3RGBA,
    PixelKind::DXT5RGBA,
    PixelKind::R8RGTC,
    PixelKind::RG8RGTC,
];

#[test]
fn alignment_is_4_for_word_aligned_formats() {
    for kind in [
        PixelKind::RGBA16,
        PixelKind::RGBA16F,
        PixelKind::RGB16,
        PixelKind::RGB16F,
        PixelKind::RGBA32F,
        PixelKind::RGB32F,
        PixelKind::RGBA8,
        PixelKind::SRGBA8,
        PixelKind::BGRA8,
        PixelKind::RG16,
        PixelKind::LA16,
        PixelKind::D24S8,
        PixelKind::D32F,
        PixelKind::R32F,
        PixelKind::R32UI,
        PixelKind::RGB10A2,
    ] {
        assert_eq!(kind.unpack_alignment(), Some(4), "{:?}", kind);
    }
}

#[test]
fn alignment_is_2_for_halfword_formats() {
    for kind in [
        PixelKind::RG8,
        PixelKind::LA8,
        PixelKind::D16,
        PixelKind::R16F,
        PixelKind::L16,
        PixelKind::R16,
    ] {
        assert_eq!(kind.unpack_alignment(), Some(2), "{:?}", kind);
    }
}

#[test]
fn alignment_is_1_for_byte_formats() {
    for kind in [
        PixelKind::R8,
        PixelKind::L8,
        PixelKind::R8UI,
        PixelKind::SRGB8,
        PixelKind::RGB8,
        PixelKind::BGR8,
        PixelKind::R11G11B10F,
    ] {
        assert_eq!(kind.unpack_alignment(), Some(1), "{:?}", kind);
    }
}

#[test]
fn alignment_is_absent_for_compressed_formats() {
    for kind in COMPRESSED {
        assert_eq!(kind.unpack_alignment(), None, "{:?}", kind);
    }
}

#[test]
fn alignment_is_absent_exactly_when_compressed() {
    let mut compressed = 0;
    for kind in ALL_KINDS {
        match kind.unpack_alignment() {
            Some(alignment) => {
                assert!(alignment == 1 || alignment == 2 || alignment == 4, "{:?}", kind);
                assert!(!kind.is_compressed(), "{:?}", kind);
            }
            None => {
                assert!(kind.is_compressed(), "{:?}", kind);
                compressed += 1;
            }
        }
    }
    assert_eq!(compressed, 6);
}

#[test]
fn compressed_formats_are_the_six_block_formats() {
    for kind in ALL_KINDS {
        assert_eq!(kind.is_compressed(), COMPRESSED.contains(&kind), "{:?}", kind);
    }
}

#[test]
fn element_kind_of_named_formats() {
    assert_eq!(PixelKind::R8UI.element_kind(), PixelElementKind::UnsignedInteger);
    assert_eq!(PixelKind::R32F.element_kind(), PixelElementKind::Float);
    assert_eq!(PixelKind::RGB8.element_kind(), PixelElementKind::NormalizedUnsignedInteger);
}

#[test]
fn element_kind_of_every_format() {
    let floats = [
        PixelKind::R32F,
        PixelKind::R16F,
        PixelKind::RGB32F,
        PixelKind::RGBA32F,
        PixelKind::RGBA16F,
        PixelKind::RGB16F,
        PixelKind::D32F,
        PixelKind::R11G11B10F,
    ];
    let unsigned = [PixelKind::R8UI, PixelKind::R32UI];
    for kind in ALL_KINDS {
        let expected = if floats.contains(&kind) {
            PixelElementKind::Float
        } else if unsigned.contains(&kind) {
            PixelElementKind::UnsignedInteger
        } else {
            PixelElementKind::NormalizedUnsignedInteger
        };
        assert_eq!(kind.element_kind(), expected, "{:?}", kind);
    }
}

#[test]
fn bytes_per_pixel_table() {
    let table = [
        (PixelKind::RGBA32F, 16),
        (PixelKind::RGB32F, 12),
        (PixelKind::RGBA16, 8),
        (PixelKind::RGBA16F, 8),
        (PixelKind::RGB16, 6),
        (PixelKind::RGB16F, 6),
        (PixelKind::RGBA8, 4),
        (PixelKind::SRGBA8, 4),
        (PixelKind::BGRA8, 4),
        (PixelKind::RG16, 4),
        (PixelKind::LA16, 4),
        (PixelKind::D24S8, 4),
        (PixelKind::D32F, 4),
        (PixelKind::R32F, 4),
        (PixelKind::R32UI, 4),
        (PixelKind::R11G11B10F, 4),
        (PixelKind::RGB10A2, 4),
        (PixelKind::RGB8, 3),
        (PixelKind::SRGB8, 3),
        (PixelKind::BGR8, 3),
        (PixelKind::RG8, 2),
        (PixelKind::LA8, 2),
        (PixelKind::R16, 2),
        (PixelKind::L16, 2),
        (PixelKind::D16, 2),
        (PixelKind::R16F, 2),
        (PixelKind::R8, 1),
        (PixelKind::L8, 1),
        (PixelKind::R8UI, 1),
    ];
    assert_eq!(table.len() + COMPRESSED.len(), ALL_KINDS.len());
    for (kind, bytes) in table {
        assert_eq!(kind.bytes_per_pixel(), Some(bytes), "{:?}", kind);
        assert_eq!(kind.block_size(), None, "{:?}", kind);
        assert_eq!(image_1d_size_bytes(kind, 1), bytes, "{:?}", kind);
        assert_eq!(image_2d_size_bytes(kind, 7, 3), bytes * 21, "{:?}", kind);
        assert_eq!(image_3d_size_bytes(kind, 7, 3, 5), bytes * 105, "{:?}", kind);
    }
}

#[test]
fn block_size_table() {
    let table = [
        (PixelKind::DXT1RGB, 8),
        (PixelKind::DXT1RGBA, 8),
        (PixelKind::R8RGTC, 8),
        (PixelKind::DXT3RGBA, 16),
        (PixelKind::DXT5RGBA, 16),
        (PixelKind::RG8RGTC, 16),
    ];
    for (kind, bytes) in table {
        assert_eq!(kind.block_size(), Some(bytes), "{:?}", kind);
        assert_eq!(kind.bytes_per_pixel(), None, "{:?}", kind);
        assert_eq!(image_1d_size_bytes(kind, 9), 3 * bytes, "{:?}", kind);
        assert_eq!(image_2d_size_bytes(kind, 9, 4), 3 * bytes, "{:?}", kind);
        assert_eq!(image_3d_size_bytes(kind, 9, 5, 13), 3 * 2 * 4 * bytes, "{:?}", kind);
    }
}

#[test]
fn ceil_div_4_rounds_up() {
    assert_eq!(ceil_div_4(0), 0);
    assert_eq!(ceil_div_4(1), 1);
    assert_eq!(ceil_div_4(3), 1);
    assert_eq!(ceil_div_4(4), 1);
    assert_eq!(ceil_div_4(5), 2);
    assert_eq!(ceil_div_4(8), 2);
    assert_eq!(ceil_div_4(10), 3);
    assert_eq!(ceil_div_4(usize::MAX), usize::MAX / 4 + 1);
    assert_eq!(ceil_div_4(usize::MAX - 3), usize::MAX / 4);
}

#[test]
fn flat_image_of_height_1_is_a_line() {
    for kind in ALL_KINDS {
        for width in [0usize, 1, 3, 4, 5, 17, 1000] {
            assert_eq!(
                image_2d_size_bytes(kind, width, 1),
                image_1d_size_bytes(kind, width),
                "{:?} {}",
                kind,
                width
            );
        }
    }
}

#[test]
fn compressed_image_without_columns_is_empty() {
    for kind in COMPRESSED {
        for height in [0usize, 1, 4, 1000, usize::MAX] {
            assert_eq!(image_2d_size_bytes(kind, 0, height), 0, "{:?} {}", kind, height);
        }
    }
}

#[test]
fn compressed_4_by_4_image_is_one_block() {
    for kind in COMPRESSED {
        assert_eq!(Some(image_2d_size_bytes(kind, 4, 4)), kind.block_size(), "{:?}", kind);
    }
}

#[test]
fn volume_of_depth_1_is_a_flat_image() {
    for kind in ALL_KINDS {
        for (width, height) in [(0usize, 0usize), (1, 1), (4, 4), (5, 9), (0, 7), (640, 480)] {
            assert_eq!(
                image_3d_size_bytes(kind, width, height, 1),
                image_2d_size_bytes(kind, width, height),
                "{:?} {}x{}",
                kind,
                width,
                height
            );
        }
    }
}

#[test]
fn dxt1_image_of_10_by_10_takes_72_bytes() {
    assert_eq!(image_2d_size_bytes(PixelKind::DXT1RGBA, 10, 10), 72);
}

#[test]
fn rgba32f_volume_of_2_cubed_takes_128_bytes() {
    assert_eq!(image_3d_size_bytes(PixelKind::RGBA32F, 2, 2, 2), 128);
}

#[test]
fn rgba8_image_of_16_by_16_takes_1024_bytes() {
    assert_eq!(image_2d_size_bytes(PixelKind::RGBA8, 16, 16), 1024);
}

#[test]
fn zero_extent_gives_zero_bytes() {
    for kind in ALL_KINDS {
        assert_eq!(image_1d_size_bytes(kind, 0), 0, "{:?}", kind);
        assert_eq!(image_2d_size_bytes(kind, 0, 9), 0, "{:?}", kind);
        assert_eq!(image_2d_size_bytes(kind, 9, 0), 0, "{:?}", kind);
        assert_eq!(image_3d_size_bytes(kind, 0, 9, 9), 0, "{:?}", kind);
        assert_eq!(image_3d_size_bytes(kind, 9, 0, 9), 0, "{:?}", kind);
        assert_eq!(image_3d_size_bytes(kind, 9, 9, 0), 0, "{:?}", kind);
    }
}

#[test]
fn zero_extent_beside_huge_extents_gives_zero_bytes() {
    for kind in ALL_KINDS {
        assert_eq!(image_2d_size_bytes(kind, usize::MAX, 0), 0, "{:?}", kind);
        assert_eq!(image_3d_size_bytes(kind, usize::MAX, usize::MAX, 0), 0, "{:?}", kind);
        assert_eq!(checked_image_3d_size_bytes(kind, usize::MAX, 0, usize::MAX), Some(0));
    }
}

#[test]
fn checked_sizes_agree_with_sizes() {
    for kind in ALL_KINDS {
        assert_eq!(checked_image_1d_size_bytes(kind, 33), Some(image_1d_size_bytes(kind, 33)));
        assert_eq!(
            checked_image_2d_size_bytes(kind, 33, 17),
            Some(image_2d_size_bytes(kind, 33, 17))
        );
        assert_eq!(
            checked_image_3d_size_bytes(kind, 33, 17, 6),
            Some(image_3d_size_bytes(kind, 33, 17, 6))
        );
    }
}

#[test]
fn checked_sizes_report_overflow() {
    assert_eq!(checked_image_1d_size_bytes(PixelKind::R8, usize::MAX), Some(usize::MAX));
    assert_eq!(checked_image_1d_size_bytes(PixelKind::RG8, usize::MAX), None);
    assert_eq!(checked_image_1d_size_bytes(PixelKind::RG8, usize::MAX / 2), Some(usize::MAX - 1));
    assert_eq!(checked_image_2d_size_bytes(PixelKind::R8, usize::MAX, 2), None);
    assert_eq!(checked_image_2d_size_bytes(PixelKind::RGBA32F, usize::MAX / 16 + 1, 1), None);
    assert_eq!(checked_image_3d_size_bytes(PixelKind::R8, usize::MAX, 1, 2), None);
    assert_eq!(checked_image_3d_size_bytes(PixelKind::R8, 1, usize::MAX, 1), Some(usize::MAX));
    assert_eq!(
        checked_image_1d_size_bytes(PixelKind::DXT1RGB, usize::MAX),
        None
    );
    assert_eq!(
        checked_image_1d_size_bytes(PixelKind::DXT1RGB, usize::MAX / 2 - 3),
        Some((usize::MAX / 8) * 8)
    );
    assert_eq!(checked_image_2d_size_bytes(PixelKind::DXT5RGBA, usize::MAX, usize::MAX), None);
}
