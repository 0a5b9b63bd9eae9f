//! The menu of the editor and its keyboard shortcuts.

use vstd::prelude::*;
use vstd::string::StringExecFns;

verus! {

/// A keyboard shortcut: a key, with or without the command and shift keys.
#[derive(Debug)]
pub struct Accelerator {
    /// Whether the command key (or control key) is held.
    pub command: bool,
    /// Whether the shift key is held.
    pub shift: bool,
    /// The key.
    pub key: String,
}

/// A shortcut as mathematical values.
pub struct AcceleratorView {
    pub command: bool,
    pub shift: bool,
    pub key: Seq<char>,
}

impl AcceleratorView {
    /// The shortcut as the host writes it: `CmdOrCtrl+` and `Shift+` where
    /// those keys are held, then the key.
    pub open spec fn combo(self) -> Seq<char> {
        (if self.command {
            "CmdOrCtrl+"@
        } else {
            ""@
        }) + (if self.shift {
            "Shift+"@
        } else {
            ""@
        }) + self.key
    }
}

impl View for Accelerator {
    type V = AcceleratorView;

    open spec fn view(&self) -> AcceleratorView {
        AcceleratorView { command: self.command, shift: self.shift, key: self.key@ }
    }
}

impl Accelerator {
    /// The shortcut as the host writes it.
    pub fn combo(&self) -> (text: String)
        ensures
            text@ == self@.combo(),
    {
        let mut text = String::from_str(if self.command {
            "CmdOrCtrl+"
        } else {
            ""
        });
        text.append(if self.shift {
            "Shift+"
        } else {
            ""
        });
        text.append(self.key.as_str());
        text
    }

    /// The shortcut of `key` with the command key.
    pub fn command(key: &str) -> (accelerator: Accelerator)
        ensures
            accelerator@ == (AcceleratorView { command: true, shift: false, key: key@ }),
    {
        Accelerator { command: true, shift: false, key: String::from_str(key) }
    }
}

/// An entry of the menu.
#[derive(Clone, Copy, Debug, PartialEq, Eq, Structural)]
pub enum MenuOptions {
    /// Open a new tab.
    NewTab,
    /// Open a file.
    OpenFile,
    /// Close the tab.
    CloseTab,
    /// Save the file.
    Save,
    /// Save the file under another name.
    SaveAs,
    /// Search the text.
    Find,
    /// Disassemble an ELF file.
    Disassemble,
    /// Assemble to an ELF file.
    Assemble,
    /// Export an ELF file.
    Export,
    /// Export the regions.
    ExportHex,
    /// Assemble the program.
    Build,
    /// Run the program.
    Run,
    /// Take one step.
    Step,
    /// Pause the program.
    Pause,
    /// Stop the program.
    Stop,
    /// Show or hide the console.
    ToggleConsole,
    /// Show or hide the settings.
    ToggleSettings,
}

impl MenuOptions {
    /// The name of the event that the entry sends.
    pub open spec fn event_text(self) -> Seq<char> {
        match self {
            MenuOptions::NewTab => "new-tab"@,
            MenuOptions::OpenFile => "open-file"@,
            MenuOptions::CloseTab => "close-tab"@,
            MenuOptions::Save => "save"@,
            MenuOptions::SaveAs => "save-as"@,
            MenuOptions::Find => "find"@,
            MenuOptions::Disassemble => "disassemble"@,
            MenuOptions::Assemble => "assemble"@,
            MenuOptions::Export => "export"@,
            MenuOptions::ExportHex => "export-hex"@,
            MenuOptions::Build => "build"@,
            MenuOptions::Run => "run"@,
            MenuOptions::Step => "step"@,
            MenuOptions::Pause => "pause"@,
            MenuOptions::Stop => "stop"@,
            MenuOptions::ToggleConsole => "toggle-console"@,
            MenuOptions::ToggleSettings => "toggle-settings"@,
        }
    }

    /// The label of the entry.
    pub open spec fn label_text(self) -> Seq<char> {
        match self {
            MenuOptions::NewTab => "New Tab"@,
            MenuOptions::OpenFile => "Open File"@,
            MenuOptions::CloseTab => "Close Tab"@,
            MenuOptions::Save => "Save"@,
            MenuOptions::SaveAs => "Save As"@,
            MenuOptions::Find => "Find"@,
            MenuOptions::Disassemble => "Disassemble Elf"@,
            MenuOptions::Assemble => "Assemble Elf"@,
            MenuOptions::Export => "Export Elf"@,
            MenuOptions::ExportHex => "Export Regions"@,
            MenuOptions::Build => "Build"@,
            MenuOptions::Run => "Run"@,
            MenuOptions::Step => "Step"@,
            MenuOptions::Pause => "Pause"@,
            MenuOptions::Stop => "Stop"@,
            MenuOptions::ToggleConsole => "Toggle Console"@,
            MenuOptions::ToggleSettings => "Toggle Settings"@,
        }
    }

    /// The shortcut of the entry, if it has one.
    pub open spec fn shortcut(self) -> Option<AcceleratorView> {
        match self {
            MenuOptions::NewTab => Some(AcceleratorView { command: true, shift: false, key: "N"@ }),
            MenuOptions::OpenFile => Some(AcceleratorView { command: true, shift: false, key: "O"@ }),
            MenuOptions::CloseTab => Some(AcceleratorView { command: true, shift: false, key: "W"@ }),
            MenuOptions::Save => Some(AcceleratorView { command: true, shift: false, key: "S"@ }),
            MenuOptions::SaveAs => Some(AcceleratorView { command: true, shift: true, key: "S"@ }),
            MenuOptions::Find => Some(AcceleratorView { command: true, shift: false, key: "F"@ }),
            MenuOptions::Disassemble => None,
            MenuOptions::Assemble => None,
            MenuOptions::Export => None,
            MenuOptions::ExportHex => None,
            MenuOptions::Build => Some(AcceleratorView { command: true, shift: false, key: "B"@ }),
            MenuOptions::Run => Some(AcceleratorView { command: true, shift: false, key: "K"@ }),
            MenuOptions::Step => Some(AcceleratorView { command: true, shift: false, key: "L"@ }),
            MenuOptions::Pause => Some(AcceleratorView { command: true, shift: false, key: "J"@ }),
            MenuOptions::Stop => Some(AcceleratorView { command: true, shift: false, key: "P"@ }),
            MenuOptions::ToggleConsole => Some(AcceleratorView { command: true, shift: false, key: "T"@ }),
            MenuOptions::ToggleSettings => Some(AcceleratorView { command: true, shift: false, key: ","@ }),
        }
    }

    /// The entry that sends the event `name`, if there is one.
    pub open spec fn named(name: Seq<char>) -> Option<MenuOptions> {
        if name == "new-tab"@ {
            Some(MenuOptions::NewTab)
        } else if name == "open-file"@ {
            Some(MenuOptions::OpenFile)
        } else if name == "close-tab"@ {
            Some(MenuOptions::CloseTab)
        } else if name == "save"@ {
            Some(MenuOptions::Save)
        } else if name == "save-as"@ {
            Some(MenuOptions::SaveAs)
        } else if name == "find"@ {
            Some(MenuOptions::Find)
        } else if name == "disassemble"@ {
            Some(MenuOptions::Disassemble)
        } else if name == "assemble"@ {
            Some(MenuOptions::Assemble)
        } else if name == "export"@ {
            Some(MenuOptions::Export)
        } else if name == "export-hex"@ {
            Some(MenuOptions::ExportHex)
        } else if name == "build"@ {
            Some(MenuOptions::Build)
        } else if name == "run"@ {
            Some(MenuOptions::Run)
        } else if name == "step"@ {
            Some(MenuOptions::Step)
        } else if name == "pause"@ {
            Some(MenuOptions::Pause)
        } else if name == "stop"@ {
            Some(MenuOptions::Stop)
        } else if name == "toggle-console"@ {
            Some(MenuOptions::ToggleConsole)
        } else if name == "toggle-settings"@ {
            Some(MenuOptions::ToggleSettings)
        } else {
            None
        }
    }

    /// The name of the event that the entry sends.
    pub fn event(&self) -> (name: &'static str)
        ensures
            name@ == self.event_text(),
    {
        match self {
            MenuOptions::NewTab => "new-tab",
            MenuOptions::OpenFile => "open-file",
            MenuOptions::CloseTab => "close-tab",
            MenuOptions::Save => "save",
            MenuOptions::SaveAs => "save-as",
            MenuOptions::Find => "find",
            MenuOptions::Disassemble => "disassemble",
            MenuOptions::Assemble => "assemble",
            MenuOptions::Export => "export",
            MenuOptions::ExportHex => "export-hex",
            MenuOptions::Build => "build",
            MenuOptions::Run => "run",
            MenuOptions::Step => "step",
            MenuOptions::Pause => "pause",
            MenuOptions::Stop => "stop",
            MenuOptions::ToggleConsole => "toggle-console",
            MenuOptions::ToggleSettings => "toggle-settings",
        }
    }

    /// The label of the entry.
    pub fn label(&self) -> (label: &'static str)
        ensures
            label@ == self.label_text(),
    {
        match self {
            MenuOptions::NewTab => "New Tab",
            MenuOptions::OpenFile => "Open File",
            MenuOptions::CloseTab => "Close Tab",
            MenuOptions::Save => "Save",
            MenuOptions::SaveAs => "Save As",
            MenuOptions::Find => "Find",
            MenuOptions::Disassemble => "Disassemble Elf",
            MenuOptions::Assemble => "Assemble Elf",
            MenuOptions::Export => "Export Elf",
            MenuOptions::ExportHex => "Export Regions",
            MenuOptions::Build => "Build",
            MenuOptions::Run => "Run",
            MenuOptions::Step => "Step",
            MenuOptions::Pause => "Pause",
            MenuOptions::Stop => "Stop",
            MenuOptions::ToggleConsole => "Toggle Console",
            MenuOptions::ToggleSettings => "Toggle Settings",
        }
    }

    /// The entry that sends the event `name`, if there is one.
    pub fn from_name(name: &str) -> (option: Option<MenuOptions>)
        ensures
            option == Self::named(name@),
    {
        let wanted = String::from_str(name);
        if wanted == String::from_str("new-tab") {
            return Some(MenuOptions::NewTab);
        }
        if wanted == String::from_str("open-file") {
            return Some(MenuOptions::OpenFile);
        }
        if wanted == String::from_str("close-tab") {
            return Some(MenuOptions::CloseTab);
        }
        if wanted == String::from_str("save") {
            return Some(MenuOptions::Save);
        }
        if wanted == String::from_str("save-as") {
            return Some(MenuOptions::SaveAs);
        }
        if wanted == String::from_str("find") {
            return Some(MenuOptions::Find);
        }
        if wanted == String::from_str("disassemble") {
            return Some(MenuOptions::Disassemble);
        }
        if wanted == String::from_str("assemble") {
            return Some(MenuOptions::Assemble);
        }
        if wanted == String::from_str("export") {
            return Some(MenuOptions::Export);
        }
        if wanted == String::from_str("export-hex") {
            return Some(MenuOptions::ExportHex);
        }
        if wanted == String::from_str("build") {
            return Some(MenuOptions::Build);
        }
        if wanted == String::from_str("run") {
            return Some(MenuOptions::Run);
        }
        if wanted == String::from_str("step") {
            return Some(MenuOptions::Step);
        }
        if wanted == String::from_str("pause") {
            return Some(MenuOptions::Pause);
        }
        if wanted == String::from_str("stop") {
            return Some(MenuOptions::Stop);
        }
        if wanted == String::from_str("toggle-console") {
            return Some(MenuOptions::ToggleConsole);
        }
        if wanted == String::from_str("toggle-settings") {
            return Some(MenuOptions::ToggleSettings);
        }
        None
    }

    /// The shortcut of the entry, if it has one.
    pub fn accelerator(&self) -> (accelerator: Option<Accelerator>)
        ensures
            match self.shortcut() {
                Some(expected) => accelerator matches Some(found) && found@ == expected,
                None => accelerator is None,
            },
    {
        match self {
            MenuOptions::NewTab => Some(Accelerator::command("N")),
            MenuOptions::OpenFile => Some(Accelerator::command("O")),
            MenuOptions::CloseTab => Some(Accelerator::command("W")),
            MenuOptions::Save => Some(Accelerator::command("S")),
            MenuOptions::SaveAs => Some(
                Accelerator { command: true, shift: true, key: String::from_str("S") },
            ),
            MenuOptions::Find => Some(Accelerator::command("F")),
            MenuOptions::Build => Some(Accelerator::command("B")),
            MenuOptions::Run => Some(Accelerator::command("K")),
            MenuOptions::Step => Some(Accelerator::command("L")),
            MenuOptions::Pause => Some(Accelerator::command("J")),
            MenuOptions::Stop => Some(Accelerator::command("P")),
            MenuOptions::ToggleConsole => Some(Accelerator::command("T")),
            MenuOptions::ToggleSettings => Some(Accelerator::command(",")),
            _ => None,
        }
    }
}

/// An entry of the menu with the shortcut that the host emulates for it.
#[derive(Debug)]
pub struct MenuOptionsData {
    /// The name of the event that the entry sends.
    pub event: String,
    /// The shortcut.
    pub accelerator: Accelerator,
}

impl MenuOptionsData {
    /// The entry with its shortcut, if it has one.
    pub fn from_option(value: MenuOptions) -> (data: Option<MenuOptionsData>)
        ensures
            match value.shortcut() {
                Some(expected) => data matches Some(found) && found.event@ == value.event_text()
                    && found.accelerator@ == expected,
                None => data is None,
            },
    {
        match value.accelerator() {
            Some(accelerator) => Some(
                MenuOptionsData { event: String::from_str(value.event()), accelerator },
            ),
            None => None,
        }
    }
}

/// The entries that the host emulates shortcuts for, in the order of the
/// menu.
pub open spec fn emulated() -> Seq<MenuOptions> {
    seq![
        MenuOptions::NewTab,
        MenuOptions::OpenFile,
        MenuOptions::CloseTab,
        MenuOptions::Save,
        MenuOptions::SaveAs,
        MenuOptions::Find,
        MenuOptions::Disassemble,
        MenuOptions::Assemble,
        MenuOptions::Export,
        MenuOptions::Build,
        MenuOptions::Run,
        MenuOptions::Step,
        MenuOptions::Pause,
        MenuOptions::Stop,
        MenuOptions::ToggleConsole,
        MenuOptions::ToggleSettings,
    ]
}

/// The entries among the first `count` emulated ones that have a shortcut.
pub open spec fn with_shortcut(count: nat) -> Seq<MenuOptions>
    decreases count,
{
    if count == 0 || count > emulated().len() {
        Seq::empty()
    } else if emulated()[count - 1].shortcut() is Some {
        with_shortcut((count - 1) as nat).push(emulated()[count - 1])
    } else {
        with_shortcut((count - 1) as nat)
    }
}

/// The shortcuts that the host emulates: one for each emulated entry of the
/// menu that has a shortcut, in the order of the menu.
pub fn get_emulated_shortcuts() -> (shortcuts: Vec<MenuOptionsData>)
    ensures
        shortcuts@.len() == with_shortcut(emulated().len()).len(),
        forall|i: int|
            0 <= i < shortcuts@.len() ==> {
                let option = with_shortcut(emulated().len())[i];
                &&& (#[trigger] shortcuts@[i]).event@ == option.event_text()
                &&& Some(shortcuts@[i].accelerator@) == option.shortcut()
            },
{
    let options: Vec<MenuOptions> = vec![
        MenuOptions::NewTab,
        MenuOptions::OpenFile,
        MenuOptions::CloseTab,
        MenuOptions::Save,
        MenuOptions::SaveAs,
        MenuOptions::Find,
        MenuOptions::Disassemble,
        MenuOptions::Assemble,
        MenuOptions::Export,
        MenuOptions::Build,
        MenuOptions::Run,
        MenuOptions::Step,
        MenuOptions::Pause,
        MenuOptions::Stop,
        MenuOptions::ToggleConsole,
        MenuOptions::ToggleSettings,
    ];
    assert(options@ =~= emulated());
    let mut shortcuts: Vec<MenuOptionsData> = Vec::new();
    let mut index: usize = 0;
    while index < options.len()
        invariant
            index <= options@.len(),
            options@ == emulated(),
            shortcuts@.len() == with_shortcut(index as nat).len(),
            forall|i: int|
                0 <= i < shortcuts@.len() ==> {
                    let option = with_shortcut(index as nat)[i];
                    &&& (#[trigger] shortcuts@[i]).event@ == option.event_text()
                    &&& Some(shortcuts@[i].accelerator@) == option.shortcut()
                },
        decreases options@.len() - index,
    {
        if let Some(data) = MenuOptionsData::from_option(options[index]) {
            shortcuts.push(data);
        }
        index = index + 1;
    }
    shortcuts
}

} // verus!
