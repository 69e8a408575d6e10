use player_core::bitmaps::{create_sampler, AddressMode, BitmapSamplers, FilterMode, Sampler};

#[test]
fn a_sampler_is_described_in_full() {
    assert_eq!(
        create_sampler(
            AddressMode::ClampToEdge,
            AddressMode::Repeat,
            FilterMode::Nearest,
            "label"
        ),
        Sampler {
            label: "label",
            address_mode_u: AddressMode::ClampToEdge,
            address_mode_v: AddressMode::Repeat,
            address_mode_w: AddressMode::Repeat,
            mag_filter: FilterMode::Nearest,
            min_filter: FilterMode::Nearest,
            mipmap_filter: FilterMode::Nearest,
            lod_min_clamp: 0,
            lod_max_clamp: 100,
        }
    );
}

#[test]
fn all_samplers_are_what_their_names_say() {
    let samplers = BitmapSamplers::new();
    let expected = [
        (&samplers.repeat_linear, AddressMode::Repeat, AddressMode::Repeat, FilterMode::Linear, "Repeat & Linear sampler"),
        (&samplers.repeat_nearest, AddressMode::Repeat, AddressMode::Repeat, FilterMode::Nearest, "Repeat & Nearest sampler"),
        (&samplers.clamp_linear, AddressMode::ClampToEdge, AddressMode::ClampToEdge, FilterMode::Linear, "Clamp & Linear sampler"),
        (&samplers.clamp_nearest, AddressMode::ClampToEdge, AddressMode::ClampToEdge, FilterMode::Nearest, "Clamp & Nearest sampler"),
        (&samplers.clamp_u_repeat_v_linear, AddressMode::ClampToEdge, AddressMode::Repeat, FilterMode::Linear, "Clamp U, Repeat V & Linear sampler"),
        (&samplers.clamp_u_repeat_v_nearest, AddressMode::ClampToEdge, AddressMode::Repeat, FilterMode::Nearest, "Clamp U, Repeat V & Nearest sampler"),
        (&samplers.repeat_u_clamp_v_linear, AddressMode::Repeat, AddressMode::ClampToEdge, FilterMode::Linear, "Repeat U, Clamp V & Linear sampler"),
        (&samplers.repeat_u_clamp_v_nearest, AddressMode::Repeat, AddressMode::ClampToEdge, FilterMode::Nearest, "Repeat U, Clamp V & Nearest sampler"),
    ];
    for (sampler, u, v, filter, label) in expected {
        assert_eq!(*sampler, create_sampler(u, v, filter, label));
    }
}

#[test]
fn the_sampler_for_a_bitmap() {
    let samplers = BitmapSamplers::new();
    assert_eq!(*samplers.get_sampler(true, true), samplers.repeat_linear);
    assert_eq!(*samplers.get_sampler(true, false), samplers.repeat_nearest);
    assert_eq!(*samplers.get_sampler(false, true), samplers.clamp_linear);
    assert_eq!(*samplers.get_sampler(false, false), samplers.clamp_nearest);
    assert_eq!(samplers.get_sampler(true, false).label, "Repeat & Nearest sampler");
    assert_eq!(samplers.get_sampler(false, true).address_mode_u, AddressMode::ClampToEdge);
    assert_eq!(samplers.get_sampler(false, true).mag_filter, FilterMode::Linear);
}
