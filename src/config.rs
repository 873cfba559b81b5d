//! Display preferences, the UI events that change them, and the record
//! they are saved as.

use vstd::prelude::*;
use vstd::string::StringExecFns;

use crate::text::text_equals;

verus! {

/// How the status line shows the visible metrics.
#[derive(Clone, Copy, Debug, PartialEq, Eq, Structural)]
pub enum DisplayMode {
    /// All visible metrics, side by side.
    List,
    /// One visible metric at a time, in turn.
    Rotation,
}

/// The saved name of a display mode.
pub open spec fn mode_name(m: DisplayMode) -> Seq<char> {
    match m {
        DisplayMode::List => "List"@,
        DisplayMode::Rotation => "Rotation"@,
    }
}

/// The display mode saved under `name`, if any.
pub open spec fn mode_of_name(name: Seq<char>) -> Option<DisplayMode> {
    if name == "List"@ {
        Some(DisplayMode::List)
    } else if name == "Rotation"@ {
        Some(DisplayMode::Rotation)
    } else {
        None
    }
}

impl DisplayMode {
    /// The name this mode is saved under: `List` or `Rotation`.
    pub fn name(self) -> (r: &'static str)
        ensures
            r@ == mode_name(self),
    {
        match self {
            DisplayMode::List => "List",
            DisplayMode::Rotation => "Rotation",
        }
    }

    /// The mode saved under `name`; `None` for any other text.
    pub fn from_name(name: &str) -> (r: Option<DisplayMode>)
        ensures
            r == mode_of_name(name@),
    {
        if text_equals(name, "List") {
            Some(DisplayMode::List)
        } else if text_equals(name, "Rotation") {
            Some(DisplayMode::Rotation)
        } else {
            None
        }
    }
}

/// Display preferences: which metrics are visible, the display mode, and
/// whether alert icons are shown.
#[derive(Clone, Copy, Debug, PartialEq, Eq, Structural)]
pub struct TrayConfig {
    pub show_cpu: bool,
    pub show_mem: bool,
    pub show_nw: bool,
    pub mode: DisplayMode,
    pub is_alert: bool,
}

/// The built-in preferences: every metric visible, list mode, icons on.
pub open spec fn default_config() -> TrayConfig {
    TrayConfig { show_cpu: true, show_mem: true, show_nw: true, mode: DisplayMode::List, is_alert: true }
}

impl Default for TrayConfig {
    fn default() -> (r: Self)
        ensures
            r == default_config(),
    {
        TrayConfig { show_cpu: true, show_mem: true, show_nw: true, mode: DisplayMode::List, is_alert: true }
    }
}

/// A named event of the tray menu.
#[derive(Clone, Copy, Debug, PartialEq, Eq, Structural)]
pub enum UiEvent {
    ShowCpu,
    ShowMem,
    ShowNw,
    ShowCpuMem,
    ShowMemNw,
    ShowCpuNw,
    ShowAll,
    ModeList,
    ModeRotation,
    ToggleAlert,
    Exit,
}

/// The event of the menu item with identifier `id`, if any.
pub open spec fn event_of_id(id: Seq<char>) -> Option<UiEvent> {
    if id == "show_cpu"@ {
        Some(UiEvent::ShowCpu)
    } else if id == "show_mem"@ {
        Some(UiEvent::ShowMem)
    } else if id == "show_nw"@ {
        Some(UiEvent::ShowNw)
    } else if id == "show_cpu_mem"@ {
        Some(UiEvent::ShowCpuMem)
    } else if id == "show_mem_nw"@ {
        Some(UiEvent::ShowMemNw)
    } else if id == "show_cpu_nw"@ {
        Some(UiEvent::ShowCpuNw)
    } else if id == "show_all"@ {
        Some(UiEvent::ShowAll)
    } else if id == "mode_list"@ {
        Some(UiEvent::ModeList)
    } else if id == "mode_rotation"@ {
        Some(UiEvent::ModeRotation)
    } else if id == "toggle_alert"@ {
        Some(UiEvent::ToggleAlert)
    } else if id == "exit"@ {
        Some(UiEvent::Exit)
    } else {
        None
    }
}

impl UiEvent {
    /// The event of the menu item with identifier `id`; `None` for an
    /// unknown identifier.
    pub fn from_id(id: &str) -> (r: Option<UiEvent>)
        ensures
            r == event_of_id(id@),
    {
        if text_equals(id, "show_cpu") {
            Some(UiEvent::ShowCpu)
        } else if text_equals(id, "show_mem") {
            Some(UiEvent::ShowMem)
        } else if text_equals(id, "show_nw") {
            Some(UiEvent::ShowNw)
        } else if text_equals(id, "show_cpu_mem") {
            Some(UiEvent::ShowCpuMem)
        } else if text_equals(id, "show_mem_nw") {
            Some(UiEvent::ShowMemNw)
        } else if text_equals(id, "show_cpu_nw") {
            Some(UiEvent::ShowCpuNw)
        } else if text_equals(id, "show_all") {
            Some(UiEvent::ShowAll)
        } else if text_equals(id, "mode_list") {
            Some(UiEvent::ModeList)
        } else if text_equals(id, "mode_rotation") {
            Some(UiEvent::ModeRotation)
        } else if text_equals(id, "toggle_alert") {
            Some(UiEvent::ToggleAlert)
        } else if text_equals(id, "exit") {
            Some(UiEvent::Exit)
        } else {
            None
        }
    }
}

/// `c` with the three visibility flags set to `cpu`, `mem` and `nw`.
pub open spec fn with_visible(c: TrayConfig, cpu: bool, mem: bool, nw: bool) -> TrayConfig {
    TrayConfig { show_cpu: cpu, show_mem: mem, show_nw: nw, ..c }
}

/// `c` after the event `e`: a visibility event sets all three flags, a mode
/// event sets the mode, the alert event flips the icon flag, and exit
/// changes nothing.
pub open spec fn after_event(c: TrayConfig, e: UiEvent) -> TrayConfig {
    match e {
        UiEvent::ShowCpu => with_visible(c, true, false, false),
        UiEvent::ShowMem => with_visible(c, false, true, false),
        UiEvent::ShowNw => with_visible(c, false, false, true),
        UiEvent::ShowCpuMem => with_visible(c, true, true, false),
        UiEvent::ShowMemNw => with_visible(c, false, true, true),
        UiEvent::ShowCpuNw => with_visible(c, true, false, true),
        UiEvent::ShowAll => with_visible(c, true, true, true),
        UiEvent::ModeList => TrayConfig { mode: DisplayMode::List, ..c },
        UiEvent::ModeRotation => TrayConfig { mode: DisplayMode::Rotation, ..c },
        UiEvent::ToggleAlert => TrayConfig { is_alert: !c.is_alert, ..c },
        UiEvent::Exit => c,
    }
}

/// Which menu items show a check mark. Exactly one visibility item is
/// checked, the one that names the visible set.
#[derive(Clone, Copy, Debug, PartialEq, Eq, Structural)]
pub struct MenuChecks {
    pub show_cpu: bool,
    pub show_mem: bool,
    pub show_nw: bool,
    pub show_cpu_mem: bool,
    pub show_cpu_nw: bool,
    pub show_mem_nw: bool,
    pub show_all: bool,
    pub mode_list: bool,
    pub mode_rotation: bool,
    pub is_alert: bool,
}

/// The saved form of the preferences: the mode is kept by name.
#[derive(Clone, Debug)]
pub struct ConfigRecord {
    pub show_cpu: bool,
    pub show_mem: bool,
    pub show_nw: bool,
    pub mode: String,
    pub is_alert: bool,
}

/// The preferences saved with these field values, if the mode name is known.
pub open spec fn config_from_fields(
    show_cpu: bool,
    show_mem: bool,
    show_nw: bool,
    mode: Seq<char>,
    is_alert: bool,
) -> Option<TrayConfig> {
    match mode_of_name(mode) {
        Some(m) => Some(TrayConfig { show_cpu, show_mem, show_nw, mode: m, is_alert }),
        None => None,
    }
}

impl TrayConfig {
    /// Applies the event `e`.
    pub fn apply(&mut self, e: UiEvent)
        ensures
            *final(self) == after_event(*old(self), e),
    {
        match e {
            UiEvent::ShowCpu => self.set_visible(true, false, false),
            UiEvent::ShowMem => self.set_visible(false, true, false),
            UiEvent::ShowNw => self.set_visible(false, false, true),
            UiEvent::ShowCpuMem => self.set_visible(true, true, false),
            UiEvent::ShowMemNw => self.set_visible(false, true, true),
            UiEvent::ShowCpuNw => self.set_visible(true, false, true),
            UiEvent::ShowAll => self.set_visible(true, true, true),
            UiEvent::ModeList => self.mode = DisplayMode::List,
            UiEvent::ModeRotation => self.mode = DisplayMode::Rotation,
            UiEvent::ToggleAlert => self.is_alert = !self.is_alert,
            UiEvent::Exit => {},
        }
    }

    fn set_visible(&mut self, cpu: bool, mem: bool, nw: bool)
        ensures
            *final(self) == with_visible(*old(self), cpu, mem, nw),
    {
        self.show_cpu = cpu;
        self.show_mem = mem;
        self.show_nw = nw;
    }

    /// The check marks that reflect these preferences.
    pub fn menu_checks(&self) -> (r: MenuChecks)
        ensures
            r.show_cpu == (self.show_cpu && !self.show_mem && !self.show_nw),
            r.show_mem == (!self.show_cpu && self.show_mem && !self.show_nw),
            r.show_nw == (!self.show_cpu && !self.show_mem && self.show_nw),
            r.show_cpu_mem == (self.show_cpu && self.show_mem && !self.show_nw),
            r.show_cpu_nw == (self.show_cpu && !self.show_mem && self.show_nw),
            r.show_mem_nw == (!self.show_cpu && self.show_mem && self.show_nw),
            r.show_all == (self.show_cpu && self.show_mem && self.show_nw),
            r.mode_list == (self.mode == DisplayMode::List),
            r.mode_rotation == (self.mode == DisplayMode::Rotation),
            r.is_alert == self.is_alert,
    {
        let (c, m, n) = (self.show_cpu, self.show_mem, self.show_nw);
        MenuChecks {
            show_cpu: c && !m && !n,
            show_mem: !c && m && !n,
            show_nw: !c && !m && n,
            show_cpu_mem: c && m && !n,
            show_cpu_nw: c && !m && n,
            show_mem_nw: !c && m && n,
            show_all: c && m && n,
            mode_list: self.mode == DisplayMode::List,
            mode_rotation: self.mode == DisplayMode::Rotation,
            is_alert: self.is_alert,
        }
    }

    /// The record these preferences are saved as.
    pub fn to_record(&self) -> (r: ConfigRecord)
        ensures
            r.show_cpu == self.show_cpu,
            r.show_mem == self.show_mem,
            r.show_nw == self.show_nw,
            r.mode@ == mode_name(self.mode),
            r.is_alert == self.is_alert,
    {
        ConfigRecord {
            show_cpu: self.show_cpu,
            show_mem: self.show_mem,
            show_nw: self.show_nw,
            mode: String::from_str(self.mode.name()),
            is_alert: self.is_alert,
        }
    }

    /// The preferences a record holds; `None` if its mode name is unknown.
    pub fn from_record(rec: &ConfigRecord) -> (r: Option<TrayConfig>)
        ensures
            r == config_from_fields(rec.show_cpu, rec.show_mem, rec.show_nw, rec.mode@, rec.is_alert),
    {
        match DisplayMode::from_name(rec.mode.as_str()) {
            Some(mode) => Some(
                TrayConfig {
                    show_cpu: rec.show_cpu,
                    show_mem: rec.show_mem,
                    show_nw: rec.show_nw,
                    mode,
                    is_alert: rec.is_alert,
                },
            ),
            None => None,
        }
    }

    /// The preferences to start with: those of the saved record, or the
    /// built-in ones when nothing was saved or the record is not valid.
    pub fn load(saved: Option<&ConfigRecord>) -> (r: TrayConfig)
        ensures
            r == match saved {
                Some(rec) => match config_from_fields(
                    rec.show_cpu,
                    rec.show_mem,
                    rec.show_nw,
                    rec.mode@,
                    rec.is_alert,
                ) {
                    Some(c) => c,
                    None => default_config(),
                },
                None => default_config(),
            },
    {
        match saved {
            Some(rec) => match TrayConfig::from_record(rec) {
                Some(c) => c,
                None => TrayConfig::default(),
            },
            None => TrayConfig::default(),
        }
    }
}

/// Saving preferences and reading them back loses nothing, for each of the
/// combinations of the five fields.
pub proof fn lemma_record_round_trip(c: TrayConfig)
    ensures
        config_from_fields(c.show_cpu, c.show_mem, c.show_nw, mode_name(c.mode), c.is_alert) == Some(c),
{
    reveal_strlit("List");
    reveal_strlit("Rotation");
    assert("List"@ != "Rotation"@) by {
        assert("List"@.len() != "Rotation"@.len());
    }
}

} // verus!
