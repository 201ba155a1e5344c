//! Keyboard navigation between repair modules.

use audio_tools::navigator::{
    index_of, meta, modules, repair_module_list, row_key, step_selectable, AudioRepairModule,
    row_tooltip, AvailableModules, ModuleTexts, RowAction, MODULE_COUNT,
};
use audio_tools::workspace::{segment_position, FbSegment};

const NAVIGATOR_ORDER: [AudioRepairModule; 8] = [
    AudioRepairModule::Denoise,
    AudioRepairModule::DeClick,
    AudioRepairModule::DeHum,
    AudioRepairModule::SpectralRepair,
    AudioRepairModule::DeReverb,
    AudioRepairModule::DeBleed,
    AudioRepairModule::DeFeedback,
    AudioRepairModule::DrumSilencer,
];

const FIRST_FOUR: AvailableModules = AvailableModules {
    denoise: true,
    declick: true,
    dehum: true,
    spectral_repair: true,
    dereverb: false,
    debleed: false,
    defeedback: false,
    drum_silencer: false,
};

/// Every other module, from the second on.
const EVERY_OTHER: AvailableModules = AvailableModules {
    denoise: false,
    declick: true,
    dehum: false,
    spectral_repair: true,
    dereverb: false,
    debleed: true,
    defeedback: false,
    drum_silencer: true,
};

#[test]
fn keyboard_navigation_skips_unavailable_modules_and_stops_at_the_ends() {
    let modules = modules(&FIRST_FOUR);
    let first_unavailable = modules
        .iter()
        .position(|meta| !meta.available)
        .expect("the roadmap rows are part of the list");
    assert_eq!(step_selectable(0, -1, &FIRST_FOUR), None);
    assert_eq!(step_selectable(first_unavailable - 1, 1, &FIRST_FOUR), None);
    for index in 0..first_unavailable.saturating_sub(1) {
        assert_eq!(step_selectable(index, 1, &FIRST_FOUR), Some(index + 1));
    }
}

#[test]
fn every_module_is_registered_once_in_navigator_order() {
    let modules = modules(&FIRST_FOUR);
    assert_eq!(modules.len(), NAVIGATOR_ORDER.len());
    for (meta, expected) in modules.iter().zip(NAVIGATOR_ORDER) {
        assert_eq!(meta.id, expected);
    }
}

#[test]
fn rows_and_modules_point_at_each_other() {
    for (row, module) in NAVIGATOR_ORDER.into_iter().enumerate() {
        assert_eq!(index_of(module), row);
        assert_eq!(meta(row, &FIRST_FOUR).id, module);
        assert_eq!(meta(row, &FIRST_FOUR).available, row < 4);
    }
    assert_eq!(MODULE_COUNT, 8);
}

#[test]
fn larger_steps_and_rows_past_the_end() {
    assert_eq!(step_selectable(0, 3, &FIRST_FOUR), Some(3));
    assert_eq!(step_selectable(1, 3, &FIRST_FOUR), None);
    assert_eq!(step_selectable(7, -2, &FIRST_FOUR), Some(3));
    assert_eq!(step_selectable(7, -1, &FIRST_FOUR), Some(3));
    assert_eq!(step_selectable(10, -1, &FIRST_FOUR), None);
    assert_eq!(step_selectable(10, -7, &FIRST_FOUR), Some(3));
    assert_eq!(step_selectable(2, 0, &FIRST_FOUR), Some(2));
    assert_eq!(step_selectable(100, 0, &FIRST_FOUR), None);
    assert_eq!(step_selectable(0, i32::MAX, &FIRST_FOUR), None);
}

#[test]
fn a_step_down_and_a_step_up_lead_back() {
    for row in 0..3 {
        let next = step_selectable(row, 1, &FIRST_FOUR).unwrap();
        assert_eq!(step_selectable(next, -1, &FIRST_FOUR), Some(row));
    }
}

#[test]
fn keys_on_a_row_activate_it_or_move_the_focus() {
    assert_eq!(row_key(1, "enter", &FIRST_FOUR), RowAction::Activate);
    assert_eq!(row_key(1, "numpad_enter", &FIRST_FOUR), RowAction::Activate);
    assert_eq!(row_key(1, "space", &FIRST_FOUR), RowAction::Activate);
    assert_eq!(row_key(1, "up", &FIRST_FOUR), RowAction::FocusRow { row: 0 });
    assert_eq!(row_key(1, "arrow_down", &FIRST_FOUR), RowAction::FocusRow { row: 2 });
    assert_eq!(row_key(0, "arrow_up", &FIRST_FOUR), RowAction::Ignore);
    assert_eq!(row_key(3, "down", &FIRST_FOUR), RowAction::Ignore);
    assert_eq!(row_key(3, "left", &FIRST_FOUR), RowAction::Ignore);
}

#[test]
fn rows_without_a_processor_take_no_keys() {
    for key in ["enter", "numpad_enter", "space", "up", "arrow_up", "down", "arrow_down", "left"] {
        for row in 4..8 {
            assert_eq!(row_key(row, key, &FIRST_FOUR), RowAction::Ignore);
        }
        assert_eq!(row_key(0, key, &EVERY_OTHER), RowAction::Ignore);
    }
}

#[test]
fn steps_pass_over_rows_between_selectable_ones() {
    assert_eq!(step_selectable(1, 1, &EVERY_OTHER), Some(3));
    assert_eq!(step_selectable(7, -1, &EVERY_OTHER), Some(5));
    assert_eq!(step_selectable(1, -1, &EVERY_OTHER), None);
    assert_eq!(row_key(3, "down", &EVERY_OTHER), RowAction::FocusRow { row: 5 });
    for (row, module) in NAVIGATOR_ORDER.into_iter().enumerate() {
        assert_eq!(EVERY_OTHER.is_available(module), row % 2 == 1);
        assert_eq!(meta(row, &EVERY_OTHER).available, row % 2 == 1);
    }
}

#[test]
fn rows_without_a_processor_say_so() {
    let texts = (0..8)
        .map(|row| ModuleTexts {
            label: format!("M{row}"),
            icon: format!("{row}.svg"),
            hint: format!("Use {row}."),
        })
        .collect();
    let list = repair_module_list(AudioRepairModule::DeHum, &FIRST_FOUR, &texts);
    assert_eq!(list.label, "MODULES");
    let rows = list.rows;
    assert_eq!(rows.len(), 8);
    assert_eq!(rows.iter().filter(|row| row.selected).count(), 1);
    assert!(rows[2].selected && rows[2].enabled);
    assert_eq!(rows[2].badge, None);
    assert!(!rows[6].enabled);
    assert_eq!(rows[6].badge, Some("Soon"));
    assert_eq!(rows[6].tooltip, "Not available in this build yet.");
    assert_eq!(rows[2].tooltip, "Use 2.");
    assert_eq!((rows[6].label.as_str(), rows[2].icon.as_str()), ("M6", "2.svg"));
    assert_eq!(row_tooltip(true, "Drag."), "Drag.");
    assert_eq!(row_tooltip(false, "Drag."), "Not available in this build yet.");
}

#[test]
fn segments_know_their_place() {
    assert_eq!(segment_position(0, 1), FbSegment::Only);
    assert_eq!(segment_position(5, 0), FbSegment::Only);
    assert_eq!(segment_position(0, 3), FbSegment::First);
    assert_eq!(segment_position(1, 3), FbSegment::Middle);
    assert_eq!(segment_position(2, 3), FbSegment::Last);
    assert_eq!(segment_position(9, 3), FbSegment::Middle);
}
