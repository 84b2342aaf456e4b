//! # Option Editor Module
//!
//! The menu that each mode shows before a session starts. Position 0 is
//! always the mode selector; the positions after it belong to the mode: its
//! four standard values, then one custom slot. A mode without options has
//! the mode selector and nothing else.
//!
//! The editor is either navigating, with a focused position, or editing:
//! the mode selector with a candidate mode, or the custom slot, whose value is
//! adjusted in place.

use crate::app::events::{Direction, Key, KeyCode};
use crate::app::modes::text::{push_decimal, push_str, spec_decimal, string_of};
use vstd::prelude::*;

verus! {

/// The number of modes that the mode selector cycles through.
pub const MODE_COUNT: usize = 3;

/// The number of standard values of a mode that has options.
pub const PRESET_COUNT: usize = 4;

/// The name of a mode by its place in the selector's cycle.
pub open spec fn spec_mode_name(index: int) -> Seq<char> {
    if index == 0 {
        "clock"@
    } else if index == 1 {
        "words"@
    } else {
        "zen"@
    }
}

/// The name of a mode by its place in the selector's cycle. A place past
/// the end names the last mode.
pub fn mode_name(index: usize) -> (name: &'static str)
    ensures
        name@ == spec_mode_name(index as int),
{
    if index == 0 {
        "clock"
    } else if index == 1 {
        "words"
    } else {
        "zen"
    }
}

/// What is being edited.
#[derive(Clone, Copy, Debug, PartialEq, Eq, Structural)]
pub enum Editing {
    /// The mode selector, with the place of the candidate mode.
    Mode(usize),
    /// The custom slot.
    Custom,
}

/// What a selection or an adjustment did beyond the editor itself.
#[derive(Clone, Copy, Debug, PartialEq, Eq, Structural)]
pub enum Effect {
    /// The active value is as it was.
    Nothing,
    /// The active value was assigned.
    Applied,
    /// A different mode was confirmed in the mode selector.
    SwitchMode(usize),
}

/// What an [`OptionEditor`] holds, as plain values.
pub struct EditorView {
    /// The place of the owning mode in the selector's cycle.
    pub own_mode: usize,
    /// The standard values.
    pub presets: Seq<u64>,
    /// The active value.
    pub value: u64,
    /// The value of the custom slot.
    pub custom: u64,
    /// By how much an adjustment changes the custom value.
    pub step: u64,
    /// The least value that a downward adjustment leaves.
    pub floor: u64,
    /// The focused position.
    pub focus: usize,
    /// What is being edited, if anything.
    pub editing: Option<Editing>,
}

/// The number of positions that belong to the mode.
pub open spec fn option_count_of(e: EditorView) -> int {
    if e.presets.len() == 0 {
        0
    } else {
        (e.presets.len() + 1) as int
    }
}

/// The position after `at` among `positions`, going round.
pub open spec fn next_position(at: int, positions: int) -> int {
    if at + 1 >= positions {
        0
    } else {
        at + 1
    }
}

/// The position before `at` among `positions`, going round.
pub open spec fn prev_position(at: int, positions: int) -> int {
    if at <= 0 || at >= positions {
        positions - 1
    } else {
        at - 1
    }
}

/// One step from `at` in a direction, going round.
pub open spec fn step_position(at: int, positions: int, direction: Direction) -> int {
    match direction {
        Direction::Forward => next_position(at, positions),
        Direction::Backward => prev_position(at, positions),
    }
}

/// The custom value after one adjustment: down by the step but not under
/// the floor, or up by the step as far as the type reaches.
pub open spec fn adjusted_custom(e: EditorView, direction: Direction) -> int {
    match direction {
        Direction::Backward => {
            let lowered = if e.custom >= e.step {
                e.custom - e.step
            } else {
                0
            };
            if lowered < e.floor {
                e.floor as int
            } else {
                lowered
            }
        },
        Direction::Forward => {
            if e.custom + e.step > u64::MAX {
                u64::MAX as int
            } else {
                e.custom + e.step
            }
        },
    }
}

/// The value that the custom slot takes for an active value: the value
/// itself unless it is a standard one.
pub open spec fn custom_for(presets: Seq<u64>, value: u64, otherwise: u64) -> u64 {
    if presets.contains(value) {
        otherwise
    } else {
        value
    }
}

/// The editor after the active value is set from outside the menu.
pub open spec fn after_configure(e: EditorView, value: u64) -> EditorView {
    EditorView { value, custom: custom_for(e.presets, value, e.custom), ..e }
}

/// The editor after a move of the focus. While editing, the focus stays.
pub open spec fn after_navigate(e: EditorView, direction: Direction) -> EditorView {
    if e.editing is Some {
        e
    } else {
        EditorView {
            focus: step_position(e.focus as int, 1 + option_count_of(e), direction) as usize,
            ..e
        }
    }
}

/// The editor after an adjustment. While not editing, nothing changes.
pub open spec fn after_adjust(e: EditorView, direction: Direction) -> EditorView {
    match e.editing {
        Some(Editing::Mode(candidate)) => EditorView {
            editing: Some(
                Editing::Mode(
                    step_position(candidate as int, MODE_COUNT as int, direction) as usize,
                ),
            ),
            ..e
        },
        Some(Editing::Custom) => {
            let custom = adjusted_custom(e, direction) as u64;
            EditorView { custom, value: custom, ..e }
        },
        None => e,
    }
}

/// What an adjustment did to the active value.
pub open spec fn effect_of_adjust(e: EditorView) -> Effect {
    if e.editing == Some(Editing::Custom) {
        Effect::Applied
    } else {
        Effect::Nothing
    }
}

/// The editor after Enter or Space.
pub open spec fn after_select(e: EditorView) -> EditorView {
    match e.editing {
        Some(_) => EditorView { editing: None, ..e },
        None => {
            if e.focus == 0 {
                EditorView { editing: Some(Editing::Mode(e.own_mode)), ..e }
            } else if e.focus <= e.presets.len() {
                EditorView { value: e.presets[e.focus - 1], ..e }
            } else if e.focus == e.presets.len() + 1 && e.presets.len() > 0 {
                EditorView { editing: Some(Editing::Custom), value: e.custom, ..e }
            } else {
                e
            }
        },
    }
}

/// What Enter or Space did beyond the editor.
pub open spec fn effect_of_select(e: EditorView) -> Effect {
    match e.editing {
        Some(Editing::Mode(candidate)) => {
            if candidate != e.own_mode {
                Effect::SwitchMode(candidate)
            } else {
                Effect::Nothing
            }
        },
        Some(Editing::Custom) => Effect::Nothing,
        None => {
            if e.focus == 0 {
                Effect::Nothing
            } else if e.focus <= e.presets.len() {
                Effect::Applied
            } else if e.focus == e.presets.len() + 1 && e.presets.len() > 0 {
                Effect::Applied
            } else {
                Effect::Nothing
            }
        },
    }
}

/// The editor after a key that it receives while editing: the arrows
/// adjust, Enter and Space confirm, every other key is ignored.
pub open spec fn after_editing_key(e: EditorView, key: Key) -> EditorView {
    match key.code {
        KeyCode::Left | KeyCode::Down => after_adjust(e, Direction::Backward),
        KeyCode::Right | KeyCode::Up => after_adjust(e, Direction::Forward),
        KeyCode::Enter => after_select(e),
        KeyCode::Char(c) => if c == ' ' {
            after_select(e)
        } else {
            e
        },
        _ => e,
    }
}

/// What a key that the editor receives while editing did beyond it.
pub open spec fn effect_of_editing_key(e: EditorView, key: Key) -> Effect {
    match key.code {
        KeyCode::Left | KeyCode::Down => effect_of_adjust(e),
        KeyCode::Right | KeyCode::Up => effect_of_adjust(e),
        KeyCode::Enter => effect_of_select(e),
        KeyCode::Char(c) => if c == ' ' {
            effect_of_select(e)
        } else {
            Effect::Nothing
        },
        _ => Effect::Nothing,
    }
}

/// The invariant of an editor: the focus is on a position that exists, and
/// what is being edited is the focused position.
pub open spec fn editor_wf(e: EditorView) -> bool {
    &&& e.own_mode < MODE_COUNT
    &&& e.presets.len() <= PRESET_COUNT
    &&& e.focus <= option_count_of(e)
    &&& match e.editing {
        Some(Editing::Mode(candidate)) => candidate < MODE_COUNT && e.focus == 0,
        Some(Editing::Custom) => e.presets.len() > 0 && e.focus == e.presets.len() + 1,
        None => true,
    }
}

/// The menu of one mode.
pub struct OptionEditor {
    own_mode: usize,
    has_options: bool,
    presets: [u64; 4],
    value: u64,
    custom: u64,
    step: u64,
    floor: u64,
    focus: usize,
    editing: Option<Editing>,
}

impl View for OptionEditor {
    type V = EditorView;

    closed spec fn view(&self) -> EditorView {
        EditorView {
            own_mode: self.own_mode,
            presets: if self.has_options {
                self.presets@
            } else {
                Seq::empty()
            },
            value: self.value,
            custom: self.custom,
            step: self.step,
            floor: self.floor,
            focus: self.focus,
            editing: self.editing,
        }
    }
}

/// Whether `value` is among `presets`.
pub fn is_preset(presets: &[u64; 4], value: u64) -> (found: bool)
    ensures
        found == presets@.contains(value),
{
    let found = presets[0] == value || presets[1] == value || presets[2] == value || presets[3]
        == value;
    proof {
        if found {
            assert(presets@[0] == value || presets@[1] == value || presets@[2] == value
                || presets@[3] == value);
        }
    }
    found
}

impl OptionEditor {
    /// The menu of the mode at `own_mode` in the selector's cycle, with the
    /// mode selector focused and nothing being edited. The custom slot
    /// takes `value` unless that is a standard value; then it takes
    /// `default_custom`.
    pub fn new(
        own_mode: usize,
        presets: [u64; 4],
        value: u64,
        default_custom: u64,
        step: u64,
        floor: u64,
    ) -> (editor: Self)
        ensures
            editor@ == (EditorView {
                own_mode,
                presets: presets@,
                value,
                custom: custom_for(presets@, value, default_custom),
                step,
                floor,
                focus: 0,
                editing: None,
            }),
            own_mode < MODE_COUNT ==> editor_wf(editor@),
    {
        let custom = if is_preset(&presets, value) {
            default_custom
        } else {
            value
        };
        OptionEditor {
            own_mode,
            has_options: true,
            presets,
            value,
            custom,
            step,
            floor,
            focus: 0,
            editing: None,
        }
    }

    /// The menu of a mode without options: the mode selector alone.
    pub fn without_options(own_mode: usize) -> (editor: Self)
        ensures
            editor@ == (EditorView {
                own_mode,
                presets: Seq::empty(),
                value: 0,
                custom: 0,
                step: 0,
                floor: 0,
                focus: 0,
                editing: None,
            }),
            own_mode < MODE_COUNT ==> editor_wf(editor@),
    {
        OptionEditor {
            own_mode,
            has_options: false,
            presets: [0, 0, 0, 0],
            value: 0,
            custom: 0,
            step: 0,
            floor: 0,
            focus: 0,
            editing: None,
        }
    }

    /// The active value.
    pub fn value(&self) -> (value: u64)
        ensures
            value == self@.value,
    {
        self.value
    }

    /// The value of the custom slot.
    pub fn custom(&self) -> (custom: u64)
        ensures
            custom == self@.custom,
    {
        self.custom
    }

    /// The standard values, if the mode has options.
    pub fn presets(&self) -> (presets: Option<[u64; 4]>)
        ensures
            match presets {
                Some(values) => values@ == self@.presets,
                None => self@.presets.len() == 0,
            },
    {
        if self.has_options {
            Some(self.presets)
        } else {
            None
        }
    }

    /// The focused position.
    pub fn focus(&self) -> (focus: usize)
        ensures
            focus == self@.focus,
    {
        self.focus
    }

    /// What is being edited, if anything.
    pub fn editing(&self) -> (editing: Option<Editing>)
        ensures
            editing == self@.editing,
    {
        self.editing
    }

    /// Whether an option is being edited.
    pub fn is_editing(&self) -> (yes: bool)
        ensures
            yes == (self@.editing is Some),
    {
        self.editing.is_some()
    }

    /// The number of positions that belong to the mode.
    pub fn option_count(&self) -> (count: usize)
        ensures
            count == option_count_of(self@),
    {
        if self.has_options {
            PRESET_COUNT + 1
        } else {
            0
        }
    }

    /// Sets the active value from outside the menu. A value that is not a
    /// standard one also becomes the custom value.
    pub fn configure(&mut self, value: u64)
        ensures
            final(self)@ == after_configure(old(self)@, value),
            editor_wf(old(self)@) ==> editor_wf(final(self)@),
    {
        if !self.has_options || !is_preset(&self.presets, value) {
            self.custom = value;
        }
        self.value = value;
    }

    /// Moves the focus one position, going round. While editing, the focus
    /// stays.
    pub fn navigate(&mut self, direction: Direction)
        ensures
            final(self)@ == after_navigate(old(self)@, direction),
            editor_wf(old(self)@) ==> editor_wf(final(self)@),
    {
        if self.editing.is_some() {
            return;
        }
        let count = self.option_count();
        self.focus = step(self.focus, count, direction);
    }

    /// Adjusts what is being edited: the candidate mode goes round the
    /// modes, the custom value moves by the step.
    pub fn adjust(&mut self, direction: Direction) -> (effect: Effect)
        ensures
            final(self)@ == after_adjust(old(self)@, direction),
            effect == effect_of_adjust(old(self)@),
            editor_wf(old(self)@) ==> editor_wf(final(self)@),
    {
        match self.editing {
            Some(Editing::Mode(candidate)) => {
                let moved = step(candidate, MODE_COUNT - 1, direction);
                self.editing = Some(Editing::Mode(moved));
                Effect::Nothing
            },
            Some(Editing::Custom) => {
                let custom = match direction {
                    Direction::Backward => {
                        let lowered = if self.custom >= self.step {
                            self.custom - self.step
                        } else {
                            0
                        };
                        if lowered < self.floor {
                            self.floor
                        } else {
                            lowered
                        }
                    },
                    Direction::Forward => {
                        if self.custom > u64::MAX - self.step {
                            u64::MAX
                        } else {
                            self.custom + self.step
                        }
                    },
                };
                self.custom = custom;
                self.value = custom;
                Effect::Applied
            },
            None => Effect::Nothing,
        }
    }

    /// Enter or Space: confirms what is being edited, or acts on the
    /// focused position: opens the mode selector, applies a standard value,
    /// or opens the custom slot and applies its value.
    pub fn select(&mut self) -> (effect: Effect)
        ensures
            final(self)@ == after_select(old(self)@),
            effect == effect_of_select(old(self)@),
            editor_wf(old(self)@) ==> editor_wf(final(self)@),
    {
        match self.editing {
            Some(Editing::Mode(candidate)) => {
                self.editing = None;
                if candidate != self.own_mode {
                    Effect::SwitchMode(candidate)
                } else {
                    Effect::Nothing
                }
            },
            Some(Editing::Custom) => {
                self.editing = None;
                Effect::Nothing
            },
            None => {
                let n = if self.has_options {
                    PRESET_COUNT
                } else {
                    0
                };
                if self.focus == 0 {
                    self.editing = Some(Editing::Mode(self.own_mode));
                    Effect::Nothing
                } else if self.focus <= n {
                    self.value = self.presets[self.focus - 1];
                    Effect::Applied
                } else if n > 0 && self.focus - 1 == n {
                    self.editing = Some(Editing::Custom);
                    self.value = self.custom;
                    Effect::Applied
                } else {
                    Effect::Nothing
                }
            },
        }
    }

    /// A key that reaches the editor while it is editing: the arrows adjust,
    /// Enter and Space confirm, every other key is ignored.
    pub fn handle_key(&mut self, key: Key) -> (effect: Effect)
        ensures
            final(self)@ == after_editing_key(old(self)@, key),
            effect == effect_of_editing_key(old(self)@, key),
            editor_wf(old(self)@) ==> editor_wf(final(self)@),
    {
        match key.code {
            KeyCode::Left | KeyCode::Down => self.adjust(Direction::Backward),
            KeyCode::Right | KeyCode::Up => self.adjust(Direction::Forward),
            KeyCode::Enter => self.select(),
            KeyCode::Char(c) => {
                if c == ' ' {
                    self.select()
                } else {
                    Effect::Nothing
                }
            },
            _ => Effect::Nothing,
        }
    }
}

/// One step from `at` among the positions `0..=last`, going round.
fn step(at: usize, last: usize, direction: Direction) -> (to: usize)
    ensures
        to == step_position(at as int, last + 1, direction),
{
    match direction {
        Direction::Forward => {
            if at >= last {
                0
            } else {
                at + 1
            }
        },
        Direction::Backward => {
            if at == 0 || at > last {
                last
            } else {
                at - 1
            }
        },
    }
}

/// Moving the focus forward and then backward, or backward and then
/// forward, brings it back to where it was.
pub proof fn lemma_navigation_round_trip(e: EditorView)
    requires
        editor_wf(e),
    ensures
        after_navigate(after_navigate(e, Direction::Forward), Direction::Backward) == e,
        after_navigate(after_navigate(e, Direction::Backward), Direction::Forward) == e,
{
}

/// A downward adjustment never leaves the custom value under the floor.
pub proof fn lemma_adjustment_is_clamped(e: EditorView)
    requires
        e.editing == Some(Editing::Custom),
    ensures
        after_adjust(e, Direction::Backward).custom >= e.floor,
        after_adjust(e, Direction::Backward).custom <= e.custom || after_adjust(
            e,
            Direction::Backward,
        ).custom == e.floor,
        after_adjust(e, Direction::Forward).custom >= e.custom,
{
}

/// Confirming an edit keeps the value that the edit produced.
pub proof fn lemma_confirm_keeps_value(e: EditorView)
    requires
        e.editing is Some,
    ensures
        after_select(e).value == e.value,
        after_select(e).custom == e.custom,
        after_select(e).editing is None,
{
}

/// The name of a mode as the menu shows it.
pub open spec fn spec_mode_title(index: int) -> Seq<char> {
    if index == 0 {
        "Clock"@
    } else if index == 1 {
        "Words"@
    } else {
        "Zen"@
    }
}

/// The name of a mode as the menu shows it. A place past the end names the
/// last mode.
pub fn mode_title(index: usize) -> (title: &'static str)
    ensures
        title@ == spec_mode_title(index as int),
{
    if index == 0 {
        "Clock"
    } else if index == 1 {
        "Words"
    } else {
        "Zen"
    }
}

/// One entry of the menu, ready to be drawn.
#[derive(Debug, PartialEq, Eq)]
pub struct OptionItem {
    /// The text of the entry; empty for a custom slot that shows no value.
    pub label: String,
    /// Whether the entry is the one in force.
    pub active: bool,
    /// Whether the focus is on the entry.
    pub focused: bool,
    /// Whether the entry is being edited.
    pub editing: bool,
}

/// An [`OptionItem`] with its label as a sequence of characters.
pub struct ItemView {
    pub label: Seq<char>,
    pub active: bool,
    pub focused: bool,
    pub editing: bool,
}

impl View for OptionItem {
    type V = ItemView;

    open spec fn view(&self) -> ItemView {
        ItemView {
            label: self.label@,
            active: self.active,
            focused: self.focused,
            editing: self.editing,
        }
    }
}

/// The entries of a menu with their labels as sequences of characters.
pub open spec fn item_views(items: Seq<OptionItem>) -> Seq<ItemView> {
    Seq::new(items.len(), |i: int| items[i]@)
}

/// The entry of the mode selector: the candidate's name while the selector is
/// being edited, the mode's own name otherwise.
pub open spec fn selector_item(e: EditorView) -> ItemView {
    match e.editing {
        Some(Editing::Mode(candidate)) => ItemView {
            label: spec_mode_title(candidate as int),
            active: true,
            focused: e.focus == 0,
            editing: true,
        },
        _ => ItemView {
            label: spec_mode_title(e.own_mode as int),
            active: true,
            focused: e.focus == 0,
            editing: false,
        },
    }
}

/// The entry of standard value `i`: the value with the unit behind it, in
/// force if it is the active value.
pub open spec fn preset_item(e: EditorView, unit: Seq<char>, i: int) -> ItemView {
    ItemView {
        label: spec_decimal(e.presets[i] as nat) + unit,
        active: e.value == e.presets[i],
        focused: e.focus == i + 1,
        editing: false,
    }
}

/// Whether the custom slot shows a value: it does when the active value is
/// not a standard one, when it is focused and when it is being edited.
pub open spec fn custom_is_shown(e: EditorView) -> bool {
    ||| !e.presets.contains(e.value)
    ||| e.focus == e.presets.len() + 1
    ||| e.editing == Some(Editing::Custom)
}

/// The entry of the custom slot. The value that it shows is the active
/// value when that is not a standard one, and the custom value otherwise.
pub open spec fn custom_item(e: EditorView) -> ItemView {
    ItemView {
        label: if !custom_is_shown(e) {
            Seq::empty()
        } else if !e.presets.contains(e.value) {
            spec_decimal(e.value as nat)
        } else {
            spec_decimal(e.custom as nat)
        },
        active: !e.presets.contains(e.value),
        focused: e.focus == e.presets.len() + 1,
        editing: e.editing == Some(Editing::Custom),
    }
}

/// Entry `i` of the menu: the mode selector, then the standard values, then
/// the custom slot.
pub open spec fn menu_item(e: EditorView, unit: Seq<char>, i: int) -> ItemView {
    if i <= 0 {
        selector_item(e)
    } else if i <= e.presets.len() {
        preset_item(e, unit, i - 1)
    } else {
        custom_item(e)
    }
}

/// The menu: one entry per position.
pub open spec fn spec_menu(e: EditorView, unit: Seq<char>) -> Seq<ItemView> {
    Seq::new((1 + option_count_of(e)) as nat, |i: int| menu_item(e, unit, i))
}

impl OptionEditor {
    /// The menu, ready to be drawn: the mode selector, then the standard
    /// values with `unit` behind each, then the custom slot.
    pub fn items(&self, unit: &str) -> (items: Vec<OptionItem>)
        ensures
            item_views(items@) == spec_menu(self@, unit@),
    {
        let mut items: Vec<OptionItem> = Vec::new();
        let shown_mode = match self.editing {
            Some(Editing::Mode(candidate)) => candidate,
            _ => self.own_mode,
        };
        items.push(
            OptionItem {
                label: mode_title(shown_mode).to_owned(),
                active: true,
                focused: self.focus == 0,
                editing: match self.editing {
                    Some(Editing::Mode(_)) => true,
                    _ => false,
                },
            },
        );
        assert(items@[0]@ == selector_item(self@));
        if self.has_options {
            let mut i: usize = 0;
            while i < PRESET_COUNT
                invariant
                    i <= PRESET_COUNT,
                    self.has_options,
                    items.len() == i + 1,
                    forall|k: int|
                        0 <= k <= i ==> (#[trigger] items@[k])@ == menu_item(self@, unit@, k),
                decreases PRESET_COUNT - i,
            {
                let mut label: Vec<char> = Vec::new();
                push_decimal(&mut label, self.presets[i] as u128);
                push_str(&mut label, unit);
                let item = OptionItem {
                    label: string_of(&label),
                    active: self.value == self.presets[i],
                    focused: self.focus == i + 1,
                    editing: false,
                };
                assert(item@ == preset_item(self@, unit@, i as int));
                items.push(item);
                i += 1;
            }
            let standard = is_preset(&self.presets, self.value);
            let editing_custom = match self.editing {
                Some(Editing::Custom) => true,
                _ => false,
            };
            let focused = self.focus == PRESET_COUNT + 1;
            let mut label: Vec<char> = Vec::new();
            if !standard {
                push_decimal(&mut label, self.value as u128);
            } else if focused || editing_custom {
                push_decimal(&mut label, self.custom as u128);
            }
            let item = OptionItem {
                label: string_of(&label),
                active: !standard,
                focused,
                editing: editing_custom,
            };
            assert(item@ == custom_item(self@));
            items.push(item);
        }
        proof {
            assert(item_views(items@) =~= spec_menu(self@, unit@));
        }
        items
    }
}

} // verus!
