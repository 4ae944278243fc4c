use triangle_setup::surface::{
    surface_configuration, CompositeAlphaMode, PresentMode, SurfaceConfiguration, TextureFormat,
    TextureUsages, WindowSize,
};

#[test]
fn configuration_takes_the_window_size() {
    let config = surface_configuration(WindowSize { width: 800, height: 600 });
    assert_eq!(config.width, 800);
    assert_eq!(config.height, 600);
}

#[test]
fn configuration_is_fixed_but_for_the_size() {
    let config = surface_configuration(WindowSize { width: 1280, height: 720 });
    assert_eq!(
        config,
        SurfaceConfiguration {
            usage: TextureUsages {
                copy_src: false,
                copy_dst: false,
                texture_binding: false,
                storage_binding: false,
                render_attachment: true,
            },
            format: TextureFormat::Bgra8Unorm,
            width: 1280,
            height: 720,
            present_mode: PresentMode::Mailbox,
            alpha_mode: CompositeAlphaMode::Auto,
            view_format_count: 0,
        }
    );
}

#[test]
fn configuration_does_not_swap_width_and_height() {
    let config = surface_configuration(WindowSize { width: 1, height: 2 });
    assert_eq!((config.width, config.height), (1, 2));
}

#[test]
fn configuration_takes_an_empty_window_as_it_is() {
    let config = surface_configuration(WindowSize { width: 0, height: 0 });
    assert_eq!((config.width, config.height), (0, 0));
}

#[test]
fn configuration_takes_the_largest_window_as_it_is() {
    let config = surface_configuration(WindowSize { width: u32::MAX, height: u32::MAX });
    assert_eq!((config.width, config.height), (u32::MAX, u32::MAX));
}

#[test]
fn surface_textures_are_render_attachments_only() {
    let usage = surface_configuration(WindowSize { width: 640, height: 480 }).usage;
    assert!(usage.render_attachment);
    assert!(!usage.copy_src && !usage.copy_dst);
    assert!(!usage.texture_binding && !usage.storage_binding);
}
