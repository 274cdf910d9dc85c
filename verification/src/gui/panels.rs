//! State of the main interface panels.

use vstd::prelude::*;

use crate::emulator::Breakpoint;

verus! {

/// The main control panel's state.
#[derive(Debug)]
pub struct ControlPanel {
    is_visible: bool,
    show_advanced: bool,
}

impl ControlPanel {
    /// A visible panel with the advanced controls folded away.
    pub fn new() -> (r: ControlPanel)
        ensures
            r.visible_spec() && !r.advanced_spec(),
    {
        ControlPanel { is_visible: true, show_advanced: false }
    }

    /// Whether the panel is shown.
    pub closed spec fn visible_spec(self) -> bool {
        self.is_visible
    }

    /// Whether the advanced controls are unfolded.
    pub closed spec fn advanced_spec(self) -> bool {
        self.show_advanced
    }

    /// Shows or hides the panel.
    pub fn set_visible(&mut self, visible: bool)
        ensures
            final(self).visible_spec() == visible,
            final(self).advanced_spec() == old(self).advanced_spec(),
    {
        self.is_visible = visible;
    }

    /// Whether the panel is shown.
    pub fn is_visible(&self) -> (r: bool)
        ensures
            r == self.visible_spec(),
    {
        self.is_visible
    }
}

/// The debug panel's state: its tab selection and child viewers.
#[derive(Debug)]
pub struct DebugPanel {
    is_visible: bool,
    selected_tab: String,
    memory_viewer: MemoryViewer,
    register_viewer: RegisterViewer,
    disassembler: Disassembler,
    breakpoint_manager: BreakpointManager,
}

impl DebugPanel {
    /// A hidden panel opening on the register tab, its panes at their
    /// power-on state.
    pub fn new() -> (r: DebugPanel)
        ensures
            !r.visible_spec(),
            r.tab_spec() == "Registers"@,
            r.mem_viewer_spec().start_spec() == 0,
            r.mem_viewer_spec().bytes_per_line_spec() == 16,
            r.mem_viewer_spec().data_spec() == Seq::<u8>::empty(),
            r.mem_viewer_spec().selected_spec() is None,
            r.reg_viewer_spec().registers_spec() == Seq::<(Seq<char>, u32)>::empty(),
            r.disassembler_spec().start_spec() == 0x8000,
            r.disassembler_spec().count_spec() == 50,
            r.breakpoints_spec().count_spec() == 0,
            r.breakpoints_spec().entry_address_spec() == Seq::<char>::empty(),
            r.breakpoints_spec().entry_condition_spec() == Seq::<char>::empty(),
    {
        DebugPanel {
            is_visible: false,
            selected_tab: String::from_str("Registers"),
            memory_viewer: MemoryViewer::new(),
            register_viewer: RegisterViewer::new(),
            disassembler: Disassembler::new(),
            breakpoint_manager: BreakpointManager::new(),
        }
    }

    /// Whether the panel is shown.
    pub closed spec fn visible_spec(self) -> bool {
        self.is_visible
    }

    /// The selected tab's label.
    pub closed spec fn tab_spec(self) -> Seq<char> {
        self.selected_tab@
    }

    /// The memory viewer pane.
    pub closed spec fn mem_viewer_spec(self) -> MemoryViewer {
        self.memory_viewer
    }

    /// The register viewer pane.
    pub closed spec fn reg_viewer_spec(self) -> RegisterViewer {
        self.register_viewer
    }

    /// The disassembler pane.
    pub closed spec fn disassembler_spec(self) -> Disassembler {
        self.disassembler
    }

    /// The breakpoint manager pane.
    pub closed spec fn breakpoints_spec(self) -> BreakpointManager {
        self.breakpoint_manager
    }

    /// Shows or hides the panel; the selected tab and every pane are
    /// untouched.
    pub fn set_visible(&mut self, visible: bool)
        ensures
            final(self).visible_spec() == visible,
            final(self).tab_spec() == old(self).tab_spec(),
            final(self).mem_viewer_spec() == old(self).mem_viewer_spec(),
            final(self).reg_viewer_spec() == old(self).reg_viewer_spec(),
            final(self).disassembler_spec() == old(self).disassembler_spec(),
            final(self).breakpoints_spec() == old(self).breakpoints_spec(),
    {
        self.is_visible = visible;
    }

    /// Whether the panel is shown.
    pub fn is_visible(&self) -> (r: bool)
        ensures
            r == self.visible_spec(),
    {
        self.is_visible
    }
}

/// The memory viewer's state: where it looks and what it last read.
#[derive(Debug)]
pub struct MemoryViewer {
    start_address: u32,
    bytes_per_line: usize,
    memory_data: Vec<u8>,
    selected_address: Option<u32>,
}

impl MemoryViewer {
    /// A viewer at the origin showing sixteen bytes a line, with nothing
    /// read and nothing selected.
    pub fn new() -> (r: MemoryViewer)
        ensures
            r.start_spec() == 0,
            r.bytes_per_line_spec() == 16,
            r.data_spec() == Seq::<u8>::empty(),
            r.selected_spec() is None,
    {
        let r = MemoryViewer {
            start_address: 0x0000,
            bytes_per_line: 16,
            memory_data: Vec::new(),
            selected_address: None,
        };
        proof {
            assert(r.data_spec() =~= Seq::<u8>::empty());
        }
        r
    }

    /// The first address shown.
    pub closed spec fn start_spec(self) -> u32 {
        self.start_address
    }

    /// How many bytes one line shows.
    pub closed spec fn bytes_per_line_spec(self) -> usize {
        self.bytes_per_line
    }

    /// The bytes last read for display.
    pub closed spec fn data_spec(self) -> Seq<u8> {
        self.memory_data@
    }

    /// The selected address, if any.
    pub closed spec fn selected_spec(self) -> Option<u32> {
        self.selected_address
    }
}

/// The register viewer's state: the registers it last read.
#[derive(Debug)]
pub struct RegisterViewer {
    registers: Vec<(String, u32)>,
}

impl RegisterViewer {
    /// A viewer with nothing read yet.
    pub fn new() -> (r: RegisterViewer)
        ensures
            r.registers_spec() == Seq::<(Seq<char>, u32)>::empty(),
            r.count_spec() == 0,
    {
        let r = RegisterViewer { registers: Vec::new() };
        proof {
            assert(r.registers_spec() =~= Seq::<(Seq<char>, u32)>::empty());
        }
        r
    }

    /// The registers last read, name and value.
    pub closed spec fn registers_spec(self) -> Seq<(Seq<char>, u32)> {
        self.registers@.map(|i: int, e: (String, u32)| (e.0@, e.1))
    }

    /// How many registers are held.
    pub open spec fn count_spec(self) -> int {
        self.registers_spec().len() as int
    }
}

/// The disassembler's state: where it decodes and how much.
#[derive(Debug)]
pub struct Disassembler {
    start_address: u32,
    instruction_count: usize,
}

impl Disassembler {
    /// A disassembler at the cartridge base decoding fifty instructions.
    pub fn new() -> (r: Disassembler)
        ensures
            r.start_spec() == 0x8000,
            r.count_spec() == 50,
    {
        Disassembler { start_address: 0x8000, instruction_count: 50 }
    }

    /// The first address decoded.
    pub closed spec fn start_spec(self) -> u32 {
        self.start_address
    }

    /// How many instructions are decoded.
    pub closed spec fn count_spec(self) -> usize {
        self.instruction_count
    }
}

/// The breakpoint manager's state: the breakpoints and the entry fields.
#[derive(Debug)]
pub struct BreakpointManager {
    breakpoints: Vec<Breakpoint>,
    new_breakpoint_address: String,
    new_breakpoint_condition: String,
}

impl BreakpointManager {
    /// A manager with no breakpoints and cleared entry fields.
    pub fn new() -> (r: BreakpointManager)
        ensures
            r.count_spec() == 0,
            r.entry_address_spec() == Seq::<char>::empty(),
            r.entry_condition_spec() == Seq::<char>::empty(),
    {
        let r = BreakpointManager {
            breakpoints: Vec::new(),
            new_breakpoint_address: String::new(),
            new_breakpoint_condition: String::new(),
        };
        proof {
            assert(r.entry_address_spec() =~= Seq::<char>::empty());
            assert(r.entry_condition_spec() =~= Seq::<char>::empty());
        }
        r
    }

    /// How many breakpoints are held.
    pub closed spec fn count_spec(self) -> int {
        self.breakpoints@.len() as int
    }

    /// The address entry field's text.
    pub closed spec fn entry_address_spec(self) -> Seq<char> {
        self.new_breakpoint_address@
    }

    /// The condition entry field's text.
    pub closed spec fn entry_condition_spec(self) -> Seq<char> {
        self.new_breakpoint_condition@
    }
}

/// The level a status message carries.
#[derive(Debug, Clone, Copy, PartialEq, Eq, Structural)]
pub enum StatusLevel {
    Info,
    Warning,
    Error,
}

/// One status-bar message.
#[derive(Debug)]
pub struct StatusMessage {
    pub text: String,
    pub level: StatusLevel,
}

/// The status bar's state: its visibility and the last ten messages.
#[derive(Debug)]
pub struct StatusBar {
    is_visible: bool,
    messages: Vec<StatusMessage>,
}

impl StatusBar {
    /// A visible bar with no messages.
    pub fn new() -> (r: StatusBar)
        ensures
            r.visible_spec(),
            r.count_spec() == 0,
    {
        StatusBar { is_visible: true, messages: Vec::new() }
    }

    /// Whether the bar is shown.
    pub closed spec fn visible_spec(self) -> bool {
        self.is_visible
    }

    /// The held messages, text and level, oldest first.
    pub closed spec fn messages_spec(self) -> Seq<(Seq<char>, StatusLevel)> {
        self.messages@.map(|i: int, m: StatusMessage| (m.text@, m.level))
    }

    /// How many messages are held.
    pub open spec fn count_spec(self) -> int {
        self.messages_spec().len() as int
    }

    /// Appends a message; once more than ten are held, the oldest is
    /// dropped.
    pub fn add_message(&mut self, text: String, level: StatusLevel)
        ensures
            final(self).messages_spec() == if old(self).messages_spec().len() + 1 > 10 {
                old(self).messages_spec().push((text@, level)).drop_first()
            } else {
                old(self).messages_spec().push((text@, level))
            },
            final(self).visible_spec() == old(self).visible_spec(),
    {
        let ghost prev = self.messages_spec();
        self.messages.push(StatusMessage { text, level });
        proof {
            assert(self.messages_spec() =~= prev.push((text@, level)));
        }
        if self.messages.len() > 10 {
            let ghost pushed = self.messages_spec();
            let _ = self.messages.remove(0);
            proof {
                assert(self.messages_spec() =~= pushed.drop_first());
            }
        }
    }

    /// Shows or hides the bar; the messages are untouched.
    pub fn set_visible(&mut self, visible: bool)
        ensures
            final(self).visible_spec() == visible,
            final(self).messages_spec() == old(self).messages_spec(),
    {
        self.is_visible = visible;
    }

    /// Whether the bar is shown.
    pub fn is_visible(&self) -> (r: bool)
        ensures
            r == self.visible_spec(),
    {
        self.is_visible
    }
}

} // verus!
