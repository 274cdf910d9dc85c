//! State of the free-floating widgets.

use vstd::prelude::*;

verus! {

/// The settings panel's state: the selected tab.
#[derive(Debug)]
pub struct SettingsPanel {
    selected_tab: String,
}

impl SettingsPanel {
    /// A settings panel opening on the general tab.
    pub fn new() -> (r: SettingsPanel)
        ensures
            r.tab_spec() == "General"@,
    {
        SettingsPanel { selected_tab: String::from_str("General") }
    }

    /// The selected tab's label.
    pub closed spec fn tab_spec(self) -> Seq<char> {
        self.selected_tab@
    }
}

/// The floating debug panel's state: its tab and child viewers.
#[derive(Debug)]
pub struct DebugPanel {
    selected_tab: String,
    memory_viewer: MemoryViewer,
    register_viewer: RegisterViewer,
    disassembler: Disassembler,
}

impl DebugPanel {
    /// A debug panel opening on the register tab.
    pub fn new() -> (r: DebugPanel)
        ensures
            r.tab_spec() == "Registers"@,
    {
        DebugPanel {
            selected_tab: String::from_str("Registers"),
            memory_viewer: MemoryViewer::new(),
            register_viewer: RegisterViewer::new(),
            disassembler: Disassembler::new(),
        }
    }

    /// The selected tab's label.
    pub closed spec fn tab_spec(self) -> Seq<char> {
        self.selected_tab@
    }
}

/// The floating memory viewer's state.
#[derive(Debug)]
pub struct MemoryViewer {
    start_address: u32,
    bytes_per_line: usize,
}

impl MemoryViewer {
    /// A viewer at the origin showing sixteen bytes a line.
    pub fn new() -> (r: MemoryViewer)
        ensures
            r.start_spec() == 0,
            r.bytes_per_line_spec() == 16,
    {
        MemoryViewer { start_address: 0x0000, bytes_per_line: 16 }
    }

    /// The first address shown.
    pub closed spec fn start_spec(self) -> u32 {
        self.start_address
    }

    /// How many bytes one line shows.
    pub closed spec fn bytes_per_line_spec(self) -> usize {
        self.bytes_per_line
    }
}

/// The floating register viewer; it keeps no state of its own.
#[derive(Debug)]
pub struct RegisterViewer {
}

impl RegisterViewer {
    /// A register viewer.
    pub fn new() -> (r: RegisterViewer) {
        RegisterViewer {  }
    }
}

/// The floating disassembler's state.
#[derive(Debug)]
pub struct Disassembler {
    start_address: u32,
    instruction_count: usize,
}

impl Disassembler {
    /// A disassembler at the cartridge base decoding fifty instructions.
    pub fn new() -> (r: Disassembler)
        ensures
            r.start_spec() == 0x8000,
            r.count_spec() == 50,
    {
        Disassembler { start_address: 0x8000, instruction_count: 50 }
    }

    /// The first address decoded.
    pub closed spec fn start_spec(self) -> u32 {
        self.start_address
    }

    /// How many instructions are decoded.
    pub closed spec fn count_spec(self) -> usize {
        self.instruction_count
    }
}

/// The floating about dialog; it keeps no state of its own.
#[derive(Debug)]
pub struct AboutDialog {
}

impl AboutDialog {
    /// An about dialog.
    pub fn new() -> (r: AboutDialog) {
        AboutDialog {  }
    }
}

} // verus!
