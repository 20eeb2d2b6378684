use lightfixes::merge::{check_plugin_count, LightInput, MergeError, MergeState, PluginData};
use lightfixes::output::{assemble_output, FORMAT_VERSION_BITS};
use lightfixes::records::{
    Atmosphere, CellRecord, Color, LightRecord, Record, FLAG_FLICKER, FLAG_FLICKER_SLOW,
    FLAG_NEGATIVE,
};
use lightfixes::transform::{classify_hue, transform_light, ColorOutcome};
use palette::{FromColor, Hsv, Srgb};

fn color(r: u8, g: u8, b: u8, a: u8) -> Color {
    Color { r, g, b, a }
}

fn light(id: &str, c: Color, radius: u32, flags: u32) -> LightRecord {
    LightRecord {
        id: id.as_bytes().to_vec(),
        color: c,
        radius,
        flags,
    }
}

fn input(l: LightRecord, hue: f32, standard: ColorOutcome, colored: ColorOutcome) -> LightInput {
    LightInput {
        light: l,
        hue_bits: hue.to_bits(),
        standard,
        colored,
    }
}

fn outcome(r: u8, g: u8, b: u8, radius: u32) -> ColorOutcome {
    ColorOutcome { r, g, b, radius }
}

#[test]
fn priority_same_identifier_first_processed_wins() {
    // Load order: A (position 1), B (position 3). Processing order is the
    // reverse, so B is folded first and its version of the light wins.
    let plugin_b = PluginData {
        name: b"B.esp".to_vec(),
        size: 300,
        cells: Vec::new(),
        lights: vec![input(
            light("torch_ABC", color(10, 20, 30, 0), 64, 0),
            30.0,
            outcome(1, 2, 3, 111),
            outcome(4, 5, 6, 222),
        )],
    };
    let plugin_a = PluginData {
        name: b"A.esp".to_vec(),
        size: 100,
        cells: Vec::new(),
        lights: vec![input(
            light("Torch_abc", color(90, 90, 90, 0), 64, 0),
            30.0,
            outcome(7, 8, 9, 333),
            outcome(7, 8, 9, 444),
        )],
    };
    let mut state = MergeState::new();
    state.merge_all(&vec![plugin_b, plugin_a], false);
    assert_eq!(state.records.len(), 1);
    match &state.records[0] {
        Record::Light(l) => {
            assert_eq!(l.id, b"torch_ABC".to_vec());
            // hue 30 is standard: B's standard outcome
            assert_eq!(l.radius, 111);
            assert_eq!((l.color.r, l.color.g, l.color.b, l.color.a), (1, 2, 3, 0));
        }
        _ => panic!("expected a light record"),
    }
}

#[test]
fn duplicate_inside_one_plugin_first_occurrence_wins() {
    let plugin = PluginData {
        name: b"dup.esp".to_vec(),
        size: 1,
        cells: Vec::new(),
        lights: vec![
            input(light("lamp", color(0, 0, 0, 0), 10, 0), 30.0, outcome(1, 1, 1, 11), outcome(2, 2, 2, 22)),
            input(light("LAMP", color(9, 9, 9, 0), 99, 0), 30.0, outcome(3, 3, 3, 33), outcome(4, 4, 4, 44)),
        ],
    };
    let mut state = MergeState::new();
    state.merge_plugin(&plugin, false);
    assert_eq!(state.records.len(), 1);
    match &state.records[0] {
        Record::Light(l) => assert_eq!(l.radius, 11),
        _ => panic!("expected a light record"),
    }
}

#[test]
fn negative_light_radius_zero_color_kept_flag_cleared() {
    let l = light("neg", color(40, 50, 60, 7), 345, FLAG_NEGATIVE | FLAG_FLICKER);
    let out = transform_light(&l, 30.0f32.to_bits(), outcome(1, 1, 1, 1), outcome(2, 2, 2, 2), true);
    assert_eq!(out.radius, 0);
    assert_eq!((out.color.r, out.color.g, out.color.b, out.color.a), (40, 50, 60, 7));
    assert_eq!(out.flags & FLAG_NEGATIVE, 0);
    assert_eq!(out.flags & FLAG_FLICKER, 0);
    assert_eq!(out.id, b"neg".to_vec());
}

#[test]
fn negative_light_still_claims_and_is_emitted() {
    let plugin = PluginData {
        name: b"neg.esp".to_vec(),
        size: 5,
        cells: Vec::new(),
        lights: vec![
            input(light("dark", color(8, 8, 8, 0), 77, FLAG_NEGATIVE), 120.0, outcome(1, 1, 1, 1), outcome(2, 2, 2, 2)),
            input(light("DARK", color(1, 2, 3, 0), 55, 0), 120.0, outcome(3, 3, 3, 3), outcome(4, 4, 4, 4)),
        ],
    };
    let mut state = MergeState::new();
    state.merge_plugin(&plugin, false);
    assert_eq!(state.records.len(), 1);
    match &state.records[0] {
        Record::Light(l) => {
            assert_eq!(l.radius, 0);
            assert_eq!(l.flags, 0);
            assert_eq!((l.color.r, l.color.g, l.color.b), (8, 8, 8));
        }
        _ => panic!("expected a light record"),
    }
}

#[test]
fn flicker_flags_cleared_only_when_configured() {
    let l = light("fl", color(0, 0, 0, 0), 10, FLAG_FLICKER | FLAG_FLICKER_SLOW | 0x0100);
    let kept = transform_light(&l, 30.0f32.to_bits(), outcome(1, 1, 1, 1), outcome(2, 2, 2, 2), false);
    assert_eq!(kept.flags, FLAG_FLICKER | FLAG_FLICKER_SLOW | 0x0100);
    let cleared = transform_light(&l, 30.0f32.to_bits(), outcome(1, 1, 1, 1), outcome(2, 2, 2, 2), true);
    assert_eq!(cleared.flags, 0x0100);
}

#[test]
fn hue_class_boundaries() {
    // 14 degrees and 64 degrees are standard; just above 64 is colored.
    assert!(!classify_hue(14.0f32.to_bits()));
    assert!(!classify_hue(64.0f32.to_bits()));
    assert!(classify_hue(64.0001f32.to_bits()));
    assert!(classify_hue(13.9999f32.to_bits()));
    assert!(classify_hue(0.0f32.to_bits()));
    assert!(classify_hue((-60.0f32).to_bits()));
    assert!(classify_hue(179.0f32.to_bits()));
    assert!(!classify_hue(30.0f32.to_bits()));
}

#[test]
fn hue_class_matches_color_library_hues() {
    // A warm red: hue 0, colored. A yellow-orange around 30 degrees:
    // standard. A magenta: negative hue in (-180, 180], colored.
    let cases: [(u8, u8, u8, bool); 3] =
        [(255, 0, 0, true), (255, 128, 0, false), (255, 0, 255, true)];
    for (r, g, b, colored) in cases {
        let rgb = Srgb::new(r, g, b).into_format();
        let hsv: Hsv = Hsv::from_color(rgb);
        let hue = hsv.hue.into_degrees();
        assert_eq!(classify_hue(hue.to_bits()), colored, "hue {hue}");
    }
}

#[test]
fn radius_scaling_outcomes_selected_by_class() {
    // The color library computes the scaled radius by a fractional
    // multiply with truncation; the merge keeps the outcome of the light's
    // own class.
    let std_radius = (2.0f32 * 100u32 as f32) as u32;
    assert_eq!(std_radius, 200);
    let col_radius = (1.1f32 * 100u32 as f32) as u32;
    assert_eq!(col_radius, 110);
    let standard_light = light("st", color(0, 0, 0, 0), 100, 0);
    let out = transform_light(&standard_light, 30.0f32.to_bits(), outcome(1, 1, 1, std_radius), outcome(2, 2, 2, col_radius), true);
    assert_eq!(out.radius, 200);
    let warm_light = light("wa", color(0, 0, 0, 0), 100, 0);
    let out = transform_light(&warm_light, 0.0f32.to_bits(), outcome(1, 1, 1, std_radius), outcome(2, 2, 2, col_radius), true);
    assert_eq!(out.radius, 110);
}

#[test]
fn interior_cell_scrubbed_references_dropped_sunlight_zeroed() {
    let cell = CellRecord {
        id: b"Mages Guild".to_vec(),
        interior: true,
        atmosphere: Some(Atmosphere {
            fog_density_bits: 0.75f32.to_bits(),
            fog_color: color(11, 12, 13, 14),
            ambient_color: color(21, 22, 23, 24),
            sunlight_color: color(31, 32, 33, 34),
        }),
        ref_count: 3,
    };
    let mut state = MergeState::new();
    state.add_cell(&cell);
    assert_eq!(state.records.len(), 1);
    assert_eq!(state.claimed, vec![b"mages guild".to_vec()]);
    match &state.records[0] {
        Record::Cell(c) => {
            assert_eq!(c.ref_count, 0);
            assert!(c.interior);
            let a = c.atmosphere.as_ref().unwrap();
            assert_eq!((a.sunlight_color.r, a.sunlight_color.g, a.sunlight_color.b, a.sunlight_color.a), (0, 0, 0, 0));
            assert_eq!(a.fog_density_bits, 0.75f32.to_bits());
            assert_eq!((a.fog_color.r, a.fog_color.g, a.fog_color.b, a.fog_color.a), (11, 12, 13, 14));
            assert_eq!((a.ambient_color.r, a.ambient_color.g, a.ambient_color.b, a.ambient_color.a), (21, 22, 23, 24));
        }
        _ => panic!("expected a cell record"),
    }
}

#[test]
fn exterior_cell_and_cell_without_atmosphere() {
    let exterior = CellRecord {
        id: b"Wilderness".to_vec(),
        interior: false,
        atmosphere: None,
        ref_count: 2,
    };
    let mut state = MergeState::new();
    state.add_cell(&exterior);
    assert_eq!(state.records.len(), 0);
    assert_eq!(state.claimed.len(), 0);
    // An interior cell without an atmosphere block is still collected,
    // with nothing to zero.
    let bare = CellRecord {
        id: b"Cave".to_vec(),
        interior: true,
        atmosphere: None,
        ref_count: 0,
    };
    state.add_cell(&bare);
    assert_eq!(state.records.len(), 1);
    match &state.records[0] {
        Record::Cell(c) => assert!(c.atmosphere.is_none()),
        _ => panic!("expected a cell record"),
    }
}

#[test]
fn cell_claim_blocks_light_of_same_identifier() {
    let plugin = PluginData {
        name: b"mix.esp".to_vec(),
        size: 9,
        cells: vec![CellRecord {
            id: b"shared_id".to_vec(),
            interior: true,
            atmosphere: None,
            ref_count: 0,
        }],
        lights: vec![input(
            light("Shared_ID", color(1, 1, 1, 0), 5, 0),
            30.0,
            outcome(1, 1, 1, 1),
            outcome(2, 2, 2, 2),
        )],
    };
    let mut state = MergeState::new();
    state.merge_plugin(&plugin, false);
    assert_eq!(state.records.len(), 1);
    assert!(matches!(state.records[0], Record::Cell(_)));
}

#[test]
fn dependency_entries_in_original_load_order() {
    // Load order: A at position 1, B at position 3; both contribute.
    // Processed in reverse (B first), the header must list A before B.
    let plugin_b = PluginData {
        name: b"B.esp".to_vec(),
        size: 333,
        cells: Vec::new(),
        lights: vec![input(light("b_light", color(0, 0, 0, 0), 1, 0), 30.0, outcome(1, 1, 1, 1), outcome(2, 2, 2, 2))],
    };
    let plugin_a = PluginData {
        name: b"A.esp".to_vec(),
        size: 111,
        cells: Vec::new(),
        lights: vec![input(light("a_light", color(0, 0, 0, 0), 1, 0), 30.0, outcome(1, 1, 1, 1), outcome(2, 2, 2, 2))],
    };
    let mut state = MergeState::new();
    state.merge_all(&vec![plugin_b, plugin_a], true);
    assert_eq!(state.masters.len(), 2);
    assert_eq!(state.masters[0].name, b"A.esp".to_vec());
    assert_eq!(state.masters[0].size, 111);
    assert_eq!(state.masters[1].name, b"B.esp".to_vec());
    assert_eq!(state.masters[1].size, 333);
}

#[test]
fn plugin_without_contribution_gets_no_dependency_entry() {
    let empty_plugin = PluginData {
        name: b"empty.esp".to_vec(),
        size: 10,
        cells: Vec::new(),
        lights: Vec::new(),
    };
    let mut state = MergeState::new();
    state.merge_plugin(&empty_plugin, true);
    assert_eq!(state.masters.len(), 0);
    // A plugin whose only record is already claimed contributes nothing.
    let one = PluginData {
        name: b"one.esp".to_vec(),
        size: 11,
        cells: Vec::new(),
        lights: vec![input(light("lamp", color(0, 0, 0, 0), 1, 0), 30.0, outcome(1, 1, 1, 1), outcome(2, 2, 2, 2))],
    };
    state.merge_plugin(&one, true);
    assert_eq!(state.masters.len(), 1);
    let shadowed = PluginData {
        name: b"two.esp".to_vec(),
        size: 12,
        cells: Vec::new(),
        lights: vec![input(light("Lamp", color(5, 5, 5, 0), 9, 0), 30.0, outcome(3, 3, 3, 3), outcome(4, 4, 4, 4))],
    };
    state.merge_plugin(&shadowed, true);
    assert_eq!(state.masters.len(), 1);
    assert_eq!(state.masters[0].name, b"one.esp".to_vec());
}

#[test]
fn empty_plugin_list_is_fatal() {
    assert_eq!(check_plugin_count(0), Err(MergeError::NoPlugins));
    assert_eq!(check_plugin_count(1), Ok(()));
    assert_eq!(check_plugin_count(250), Ok(()));
}

#[test]
fn assembled_output_carries_header_metadata() {
    let plugin = PluginData {
        name: b"only.esp".to_vec(),
        size: 77,
        cells: Vec::new(),
        lights: vec![input(light("l1", color(0, 0, 0, 0), 1, 0), 30.0, outcome(1, 1, 1, 1), outcome(2, 2, 2, 2))],
    };
    let mut state = MergeState::new();
    state.merge_plugin(&plugin, true);
    let out = assemble_output(state);
    assert_eq!(out.records.len(), 1);
    assert_eq!(out.header.version_bits, FORMAT_VERSION_BITS);
    assert_eq!(f32::from_bits(out.header.version_bits), 1.3);
    assert_eq!(out.header.author, b"S3".to_vec());
    assert_eq!(
        out.header.description,
        b"Plugin generated by s3-lightfixes".to_vec()
    );
    assert_eq!(out.header.masters.len(), 1);
    assert_eq!(out.header.masters[0].name, b"only.esp".to_vec());
    assert_eq!(out.header.masters[0].size, 77);
}
