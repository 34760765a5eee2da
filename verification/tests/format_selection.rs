use render_host::format::{select_format, select_format_index};
use wgpu::TextureFormat;

#[test]
fn first_srgb_format_is_chosen() {
    let formats = vec![
        TextureFormat::Bgra8Unorm,
        TextureFormat::Bgra8UnormSrgb,
        TextureFormat::Rgba8UnormSrgb,
    ];
    assert_eq!(select_format_index(&formats), 1);
    assert_eq!(select_format(&formats), TextureFormat::Bgra8UnormSrgb);
}

#[test]
fn srgb_head_is_chosen() {
    let formats = vec![TextureFormat::Rgba8UnormSrgb, TextureFormat::Bgra8UnormSrgb];
    assert_eq!(select_format_index(&formats), 0);
    assert_eq!(select_format(&formats), TextureFormat::Rgba8UnormSrgb);
}

#[test]
fn srgb_last_is_chosen() {
    let formats = vec![
        TextureFormat::Rgba16Float,
        TextureFormat::Rgb10a2Unorm,
        TextureFormat::Rgba8Unorm,
        TextureFormat::Rgba8UnormSrgb,
    ];
    assert_eq!(select_format_index(&formats), 3);
    assert_eq!(select_format(&formats), TextureFormat::Rgba8UnormSrgb);
}

#[test]
fn falls_back_to_first_format_without_srgb() {
    let formats = vec![
        TextureFormat::Rgba16Float,
        TextureFormat::Bgra8Unorm,
        TextureFormat::Rgba8Unorm,
    ];
    assert_eq!(select_format_index(&formats), 0);
    assert_eq!(select_format(&formats), TextureFormat::Rgba16Float);
}

#[test]
fn single_format_is_chosen() {
    assert_eq!(select_format(&vec![TextureFormat::Bgra8Unorm]), TextureFormat::Bgra8Unorm);
    assert_eq!(
        select_format(&vec![TextureFormat::Bgra8UnormSrgb]),
        TextureFormat::Bgra8UnormSrgb
    );
}

#[test]
fn selection_is_repeatable() {
    let formats = vec![
        TextureFormat::Rgba8Unorm,
        TextureFormat::Bc1RgbaUnorm,
        TextureFormat::Bc1RgbaUnormSrgb,
        TextureFormat::Bgra8UnormSrgb,
    ];
    let first = select_format(&formats);
    let second = select_format(&formats);
    assert_eq!(first, second);
    assert_eq!(first, TextureFormat::Bc1RgbaUnormSrgb);
    assert_eq!(select_format_index(&formats), select_format_index(&formats.clone()));
}
