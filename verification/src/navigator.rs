//! The Audio Repair module navigator.
//!
//! One table drives the order and the availability of the modules; keyboard
//! navigation skips the modules that cannot be activated yet.

use vstd::prelude::*;

verus! {

/// The repair modules.
#[derive(Clone, Copy, PartialEq, Eq, Structural, Debug)]
pub enum AudioRepairModule {
    Denoise,
    DeClick,
    DeHum,
    SpectralRepair,
    DeReverb,
    DeBleed,
    DeFeedback,
    DrumSilencer,
}

/// Number of registered modules.
pub const MODULE_COUNT: usize = 8;

/// One module's registration.
#[derive(Clone, Copy, PartialEq, Eq, Structural, Debug)]
pub struct AudioRepairModuleMeta {
    pub id: AudioRepairModule,
    pub available: bool,
}

/// The module in a row of the navigator.
pub open spec fn row_module(index: int) -> AudioRepairModule {
    if index == 0 {
        AudioRepairModule::Denoise
    } else if index == 1 {
        AudioRepairModule::DeClick
    } else if index == 2 {
        AudioRepairModule::DeHum
    } else if index == 3 {
        AudioRepairModule::SpectralRepair
    } else if index == 4 {
        AudioRepairModule::DeReverb
    } else if index == 5 {
        AudioRepairModule::DeBleed
    } else if index == 6 {
        AudioRepairModule::DeFeedback
    } else {
        AudioRepairModule::DrumSilencer
    }
}

/// The row of a module.
pub open spec fn module_row(module: AudioRepairModule) -> int {
    match module {
        AudioRepairModule::Denoise => 0,
        AudioRepairModule::DeClick => 1,
        AudioRepairModule::DeHum => 2,
        AudioRepairModule::SpectralRepair => 3,
        AudioRepairModule::DeReverb => 4,
        AudioRepairModule::DeBleed => 5,
        AudioRepairModule::DeFeedback => 6,
        AudioRepairModule::DrumSilencer => 7,
    }
}

/// Which modules have a processor in this build.
#[derive(Clone, Copy, PartialEq, Eq, Structural, Debug)]
pub struct AvailableModules {
    pub denoise: bool,
    pub declick: bool,
    pub dehum: bool,
    pub spectral_repair: bool,
    pub dereverb: bool,
    pub debleed: bool,
    pub defeedback: bool,
    pub drum_silencer: bool,
}

impl AvailableModules {
    /// Whether a module has a processor.
    pub open spec fn has(self, module: AudioRepairModule) -> bool {
        match module {
            AudioRepairModule::Denoise => self.denoise,
            AudioRepairModule::DeClick => self.declick,
            AudioRepairModule::DeHum => self.dehum,
            AudioRepairModule::SpectralRepair => self.spectral_repair,
            AudioRepairModule::DeReverb => self.dereverb,
            AudioRepairModule::DeBleed => self.debleed,
            AudioRepairModule::DeFeedback => self.defeedback,
            AudioRepairModule::DrumSilencer => self.drum_silencer,
        }
    }

    /// Whether a module has a processor.
    pub fn is_available(&self, module: AudioRepairModule) -> (available: bool)
        ensures
            available == self.has(module),
    {
        match module {
            AudioRepairModule::Denoise => self.denoise,
            AudioRepairModule::DeClick => self.declick,
            AudioRepairModule::DeHum => self.dehum,
            AudioRepairModule::SpectralRepair => self.spectral_repair,
            AudioRepairModule::DeReverb => self.dereverb,
            AudioRepairModule::DeBleed => self.debleed,
            AudioRepairModule::DeFeedback => self.defeedback,
            AudioRepairModule::DrumSilencer => self.drum_silencer,
        }
    }
}

/// The row that a step from another lands on, skipping what cannot be
/// activated; none past the ends.
pub open spec fn next_selectable(available: AvailableModules, from: int, delta: int) -> Option<int>
    decreases
            if delta > 0 {
                MODULE_COUNT - from
            } else {
                from + 1
            },
{
    let next = from + delta;
    if next < 0 || next >= MODULE_COUNT {
        None
    } else if available.has(row_module(next)) {
        Some(next)
    } else if delta == 0 {
        None
    } else {
        next_selectable(available, next, delta)
    }
}

/// A row of the navigator.
pub fn meta(index: usize, available: &AvailableModules) -> (row: AudioRepairModuleMeta)
    requires
        index < MODULE_COUNT,
    ensures
        row.id == row_module(index as int),
        row.available == available.has(row.id),
{
    let id = if index == 0 {
        AudioRepairModule::Denoise
    } else if index == 1 {
        AudioRepairModule::DeClick
    } else if index == 2 {
        AudioRepairModule::DeHum
    } else if index == 3 {
        AudioRepairModule::SpectralRepair
    } else if index == 4 {
        AudioRepairModule::DeReverb
    } else if index == 5 {
        AudioRepairModule::DeBleed
    } else if index == 6 {
        AudioRepairModule::DeFeedback
    } else {
        AudioRepairModule::DrumSilencer
    };
    AudioRepairModuleMeta { id, available: available.is_available(id) }
}

/// The registered modules, in navigator order.
pub fn modules(available: &AvailableModules) -> (rows: Vec<AudioRepairModuleMeta>)
    ensures
        rows@.len() == MODULE_COUNT,
        forall|i: int|
            0 <= i < MODULE_COUNT ==> (#[trigger] rows@[i]).id == row_module(i)
                && rows@[i].available == available.has(row_module(i)),
{
    let mut rows: Vec<AudioRepairModuleMeta> = Vec::new();
    let mut i: usize = 0;
    while i < MODULE_COUNT
        invariant
            i <= MODULE_COUNT,
            rows@.len() == i,
            forall|j: int|
                0 <= j < i ==> (#[trigger] rows@[j]).id == row_module(j) && rows@[j].available
                    == available.has(row_module(j)),
        decreases MODULE_COUNT - i,
    {
        rows.push(meta(i, available));
        i += 1;
    }
    rows
}

/// The row of a module.
pub fn index_of(module: AudioRepairModule) -> (index: usize)
    ensures
        index == module_row(module),
{
    match module {
        AudioRepairModule::Denoise => 0,
        AudioRepairModule::DeClick => 1,
        AudioRepairModule::DeHum => 2,
        AudioRepairModule::SpectralRepair => 3,
        AudioRepairModule::DeReverb => 4,
        AudioRepairModule::DeBleed => 5,
        AudioRepairModule::DeFeedback => 6,
        AudioRepairModule::DrumSilencer => 7,
    }
}

/// The next row the keyboard can land on, or `None` at the ends.
///
/// Modules without a processor are skipped: focus parked on one would be a
/// dead end.
pub fn step_selectable(from: usize, delta: i32, available: &AvailableModules) -> (next: Option<usize>)
    requires
        from <= i32::MAX,
        i32::MIN <= from + delta <= i32::MAX,
        delta == 0 && from < MODULE_COUNT ==> available.has(row_module(from as int)),
    ensures
        match next {
            Some(row) => next_selectable(*available, from as int, delta as int) == Some(row as int),
            None => next_selectable(*available, from as int, delta as int) is None,
        },
{
    let mut index: i64 = from as i64;
    loop
        invariant
            0 <= index <= i32::MAX,
            index == from || index < MODULE_COUNT,
            index != from ==> delta != 0,
            delta == 0 && from < MODULE_COUNT ==> available.has(row_module(from as int)),
            next_selectable(*available, from as int, delta as int) == next_selectable(
                *available,
                index as int,
                delta as int,
            ),
        decreases
                if delta > 0 {
                    i32::MAX - index
                } else {
                    index as int
                },
    {
        let next: i64 = index + delta as i64;
        if next < 0 || next >= MODULE_COUNT as i64 {
            return None;
        }
        if meta(next as usize, available).available {
            return Some(next as usize);
        }
        index = next;
    }
}

/// What a key press on a row of the navigator does.
#[derive(Clone, Copy, PartialEq, Eq, Structural, Debug)]
pub enum RowAction {
    Activate,
    FocusRow { row: usize },
    Ignore,
}

/// What a key press on a row does: activate it, or move the focus. A row whose
/// module has no processor takes no keys.
pub open spec fn row_key_meaning(available: AvailableModules, row: int, key: Seq<char>) -> RowAction {
    if !available.has(row_module(row)) {
        RowAction::Ignore
    } else if key == "enter"@ || key == "numpad_enter"@ || key == "space"@ {
        RowAction::Activate
    } else if key == "up"@ || key == "arrow_up"@ {
        match next_selectable(available, row, -1) {
            Some(next) => RowAction::FocusRow { row: next as usize },
            None => RowAction::Ignore,
        }
    } else if key == "down"@ || key == "arrow_down"@ {
        match next_selectable(available, row, 1) {
            Some(next) => RowAction::FocusRow { row: next as usize },
            None => RowAction::Ignore,
        }
    } else {
        RowAction::Ignore
    }
}

/// What a key press on a row of the navigator does.
pub fn row_key(row: usize, key: &str, available: &AvailableModules) -> (action: RowAction)
    requires
        row < MODULE_COUNT,
    ensures
        action == row_key_meaning(*available, row as int, key@),
{
    if !meta(row, available).available {
        return RowAction::Ignore;
    }
    let step: i32 = if crate::text::same_text(key, "enter") || crate::text::same_text(
        key,
        "numpad_enter",
    ) || crate::text::same_text(key, "space") {
        return RowAction::Activate;
    } else if crate::text::same_text(key, "up") || crate::text::same_text(key, "arrow_up") {
        -1
    } else if crate::text::same_text(key, "down") || crate::text::same_text(key, "arrow_down") {
        1
    } else {
        return RowAction::Ignore;
    };
    match step_selectable(row, step, available) {
        Some(next) => RowAction::FocusRow { row: next },
        None => RowAction::Ignore,
    }
}

/// What a module is called, what it is drawn as, and what can be done with it on
/// the canvas.
pub struct ModuleTexts {
    pub label: String,
    pub icon: String,
    pub hint: String,
}

/// How a row of the navigator looks and behaves.
pub struct RowLook {
    pub id: AudioRepairModule,
    pub label: String,
    pub icon: String,
    pub selected: bool,
    pub enabled: bool,
    /// What is said of a row that cannot be activated.
    pub badge: Option<&'static str>,
    pub tooltip: String,
}

/// The navigator: a label over its rows.
pub struct ModuleList {
    pub label: &'static str,
    pub rows: Vec<RowLook>,
}

/// What is said of a row under the pointer: how its module is used, or that it
/// cannot be.
pub open spec fn tooltip_of(available: bool, hint: Seq<char>) -> Seq<char> {
    if available {
        hint
    } else {
        "Not available in this build yet."@
    }
}

/// What is said of a row under the pointer: how its module is used, or that it
/// cannot be.
pub fn row_tooltip(available: bool, hint: &str) -> (tooltip: String)
    ensures
        tooltip@ == tooltip_of(available, hint@),
{
    if available {
        hint.to_owned()
    } else {
        "Not available in this build yet.".to_owned()
    }
}

/// The navigator while a module is active, with the texts of each row's module.
pub fn repair_module_list(
    active: AudioRepairModule,
    available: &AvailableModules,
    texts: &Vec<ModuleTexts>,
) -> (list: ModuleList)
    requires
        texts@.len() == MODULE_COUNT,
    ensures
        list.label@ == "MODULES"@,
        list.rows@.len() == MODULE_COUNT,
        forall|i: int|
            0 <= i < MODULE_COUNT ==> row_look(
                #[trigger] list.rows@[i],
                row_module(i),
                available.has(row_module(i)),
                active,
                texts@[i],
            ),
{
    let mut rows: Vec<RowLook> = Vec::new();
    let mut i: usize = 0;
    while i < MODULE_COUNT
        invariant
            i <= MODULE_COUNT,
            texts@.len() == MODULE_COUNT,
            rows@.len() == i,
            forall|j: int|
                0 <= j < i ==> row_look(
                    #[trigger] rows@[j],
                    row_module(j),
                    available.has(row_module(j)),
                    active,
                    texts@[j],
                ),
        decreases MODULE_COUNT - i,
    {
        rows.push(repair_module_item(meta(i, available), active, &texts[i]));
        i += 1;
    }
    ModuleList { label: "MODULES", rows }
}

/// Whether a row shows a module as it is while another is active.
pub open spec fn row_look(
    row: RowLook,
    module: AudioRepairModule,
    available: bool,
    active: AudioRepairModule,
    texts: ModuleTexts,
) -> bool {
    &&& row.id == module
    &&& row.label@ == texts.label@
    &&& row.icon@ == texts.icon@
    &&& row.selected == (module == active)
    &&& row.enabled == available
    &&& available ==> row.badge is None
    &&& !available ==> (row.badge matches Some(badge) && badge@ == "Soon"@)
    &&& row.tooltip@ == tooltip_of(available, texts.hint@)
}

fn repair_module_item(
    meta: AudioRepairModuleMeta,
    active: AudioRepairModule,
    texts: &ModuleTexts,
) -> (row: RowLook)
    ensures
        row_look(row, meta.id, meta.available, active, *texts),
{
    RowLook {
        id: meta.id,
        label: texts.label.clone(),
        icon: texts.icon.clone(),
        selected: meta.id == active,
        enabled: meta.available,
        badge: if meta.available {
            None
        } else {
            Some("Soon")
        },
        tooltip: row_tooltip(meta.available, &texts.hint),
    }
}

// ------------------------------------------------------------------- laws

/// Every module stands in one row, and every row holds one module.
pub proof fn law_every_module_has_one_row(module: AudioRepairModule, row: int)
    requires
        0 <= row < MODULE_COUNT,
    ensures
        0 <= module_row(module) < MODULE_COUNT,
        row_module(module_row(module)) == module,
        module_row(row_module(row)) == row,
{
}

/// Keyboard navigation lands on modules that can be activated, and nowhere
/// else.
pub proof fn law_steps_land_on_available_modules(available: AvailableModules, from: int, delta: int)
    ensures
        next_selectable(available, from, delta) matches Some(row) ==> 0 <= row < MODULE_COUNT
            && available.has(row_module(row)),
    decreases
            if delta > 0 {
                MODULE_COUNT - from
            } else {
                from + 1
            },
{
    let next = from + delta;
    if 0 <= next < MODULE_COUNT && !available.has(row_module(next)) && delta != 0 {
        law_steps_land_on_available_modules(available, next, delta);
    }
}

/// A step moves in its own direction.
pub proof fn law_steps_move_in_their_direction(available: AvailableModules, from: int, delta: int)
    ensures
        next_selectable(available, from, delta) matches Some(row) ==> {
            &&& delta > 0 ==> row > from
            &&& delta < 0 ==> row < from
            &&& delta == 0 ==> row == from
        },
    decreases
            if delta > 0 {
                MODULE_COUNT - from
            } else {
                from + 1
            },
{
    let next = from + delta;
    if 0 <= next < MODULE_COUNT && !available.has(row_module(next)) && delta != 0 {
        law_steps_move_in_their_direction(available, next, delta);
    }
}

/// A step down skips no module that can be activated.
pub proof fn law_a_step_down_skips_only_unavailable_modules(
    available: AvailableModules,
    from: int,
    row: int,
)
    requires
        0 <= from < row < MODULE_COUNT,
        available.has(row_module(row)),
    ensures
        next_selectable(available, from, 1) matches Some(next) && from < next <= row,
    decreases MODULE_COUNT - from,
{
    if !available.has(row_module(from + 1)) {
        law_a_step_down_skips_only_unavailable_modules(available, from + 1, row);
    }
}

/// A step up skips no module that can be activated.
pub proof fn law_a_step_up_skips_only_unavailable_modules(
    available: AvailableModules,
    from: int,
    row: int,
)
    requires
        0 <= row < from < MODULE_COUNT,
        available.has(row_module(row)),
    ensures
        next_selectable(available, from, -1) matches Some(next) && row <= next < from,
    decreases from,
{
    if !available.has(row_module(from - 1)) {
        law_a_step_up_skips_only_unavailable_modules(available, from - 1, row);
    }
}

/// A step down and a step up lead back, between modules that can be activated.
pub proof fn law_steps_down_and_up_lead_back(available: AvailableModules, from: int)
    requires
        0 <= from < MODULE_COUNT,
        available.has(row_module(from)),
    ensures
        next_selectable(available, from, 1) matches Some(next) ==> next_selectable(
            available,
            next,
            -1,
        ) == Some(from),
{
    if let Some(next) = next_selectable(available, from, 1) {
        law_steps_land_on_available_modules(available, from, 1);
        law_steps_move_in_their_direction(available, from, 1);
        law_a_step_up_skips_only_unavailable_modules(available, next, from);
        law_steps_land_on_available_modules(available, next, -1);
        let back = next_selectable(available, next, -1)->0;
        if back > from {
            law_a_step_down_skips_only_unavailable_modules(available, from, back);
        }
    }
}

/// Above the first module that can be activated and below the last one,
/// navigation stops.
pub proof fn law_navigation_stops_at_the_ends(available: AvailableModules, from: int)
    requires
        0 <= from < MODULE_COUNT,
    ensures
        (forall|row: int| 0 <= row < from ==> !available.has(#[trigger] row_module(row)))
            ==> next_selectable(available, from, -1) is None,
        (forall|row: int| from < row < MODULE_COUNT ==> !available.has(#[trigger] row_module(row)))
            ==> next_selectable(available, from, 1) is None,
{
    law_steps_move_in_their_direction(available, from, -1);
    law_steps_land_on_available_modules(available, from, -1);
    law_steps_move_in_their_direction(available, from, 1);
    law_steps_land_on_available_modules(available, from, 1);
}

/// A row whose module cannot be activated takes no keys.
pub proof fn law_unavailable_rows_take_no_keys(available: AvailableModules, row: int, key: Seq<char>)
    requires
        !available.has(row_module(row)),
    ensures
        row_key_meaning(available, row, key) == RowAction::Ignore,
{
}

/// On a row that can be activated, the keys that confirm activate it, the arrows
/// move the focus to the nearest row in their direction, and no other key does
/// anything.
pub proof fn law_keys_activate_or_move(available: AvailableModules, row: int, key: Seq<char>)
    requires
        0 <= row < MODULE_COUNT,
        available.has(row_module(row)),
    ensures
        ({
            let action = row_key_meaning(available, row, key);
            let confirms = key == "enter"@ || key == "numpad_enter"@ || key == "space"@;
            let up = key == "up"@ || key == "arrow_up"@;
            let down = key == "down"@ || key == "arrow_down"@;
            &&& confirms ==> action is Activate
            &&& action is Activate ==> confirms
            &&& action matches RowAction::FocusRow { row: next } ==> {
                &&& available.has(row_module(next as int))
                &&& up ==> next < row
                &&& down ==> row < next < MODULE_COUNT
                &&& up || down
            }
            &&& !confirms && !up && !down ==> action is Ignore
        }),
{
    reveal_strlit("enter");
    reveal_strlit("numpad_enter");
    reveal_strlit("space");
    reveal_strlit("up");
    reveal_strlit("arrow_up");
    reveal_strlit("down");
    reveal_strlit("arrow_down");
    assert("enter"@.len() == 5 && "numpad_enter"@.len() == 12 && "space"@.len() == 5);
    assert("up"@.len() == 2 && "arrow_up"@.len() == 8 && "down"@.len() == 4);
    assert("arrow_down"@.len() == 10);
    law_steps_land_on_available_modules(available, row, -1);
    law_steps_land_on_available_modules(available, row, 1);
    law_steps_move_in_their_direction(available, row, -1);
    law_steps_move_in_their_direction(available, row, 1);
}

/// An arrow towards a row that can be activated never stays where it is.
pub proof fn law_an_arrow_finds_the_next_row(
    available: AvailableModules,
    row: int,
    other: int,
)
    requires
        0 <= row < MODULE_COUNT,
        0 <= other < MODULE_COUNT,
        available.has(row_module(row)),
        available.has(row_module(other)),
    ensures
        other > row ==> (row_key_meaning(available, row, "down"@) matches RowAction::FocusRow {
            row: next,
        } && row < next <= other),
        other < row ==> (row_key_meaning(available, row, "up"@) matches RowAction::FocusRow {
            row: next,
        } && other <= next < row),
{
    reveal_strlit("enter");
    reveal_strlit("numpad_enter");
    reveal_strlit("space");
    reveal_strlit("up");
    reveal_strlit("arrow_up");
    reveal_strlit("down");
    reveal_strlit("arrow_down");
    assert("enter"@.len() == 5 && "numpad_enter"@.len() == 12 && "space"@.len() == 5);
    assert("up"@.len() == 2 && "arrow_up"@.len() == 8 && "down"@.len() == 4);
    if other > row {
        law_a_step_down_skips_only_unavailable_modules(available, row, other);
    } else if other < row {
        law_a_step_up_skips_only_unavailable_modules(available, row, other);
    }
}

/// A module has a processor if and only if it was said to have one.
pub proof fn law_each_module_has_its_own_processor(available: AvailableModules)
    ensures
        available.has(AudioRepairModule::Denoise) == available.denoise,
        available.has(AudioRepairModule::DeClick) == available.declick,
        available.has(AudioRepairModule::DeHum) == available.dehum,
        available.has(AudioRepairModule::SpectralRepair) == available.spectral_repair,
        available.has(AudioRepairModule::DeReverb) == available.dereverb,
        available.has(AudioRepairModule::DeBleed) == available.debleed,
        available.has(AudioRepairModule::DeFeedback) == available.defeedback,
        available.has(AudioRepairModule::DrumSilencer) == available.drum_silencer,
{
}

/// A row shows its module's own texts; the hint stands under the pointer where
/// the module can be used, and the row says so where it cannot.
pub proof fn law_a_row_shows_its_module(
    row: RowLook,
    module: AudioRepairModule,
    available: bool,
    active: AudioRepairModule,
    texts: ModuleTexts,
)
    requires
        row_look(row, module, available, active, texts),
    ensures
        row.id == module,
        row.label@ == texts.label@,
        row.icon@ == texts.icon@,
        row.selected <==> module == active,
        row.enabled <==> available,
        row.badge is Some <==> !available,
        available ==> row.tooltip@ == texts.hint@,
        !available ==> row.tooltip@ == "Not available in this build yet."@,
{
}

} // verus!
