use vstd::prelude::*;
use vstd::string::StringExecFns;
use crate::text::spec_decimal;
use crate::text::u64_to_decimal;

verus! {

/// The panes of the terminal front-end, in navigation order.
#[derive(Clone, Copy, PartialEq, Eq, Structural, Debug)]
pub enum Tab {
    Chat,
    Files,
    Tasks,
    Settings,
}

/// How many panes there are.
pub open spec fn tab_count() -> int {
    4
}

impl Tab {
    pub open spec fn spec_title(&self) -> Seq<char> {
        match self {
            Tab::Chat => "Chat"@,
            Tab::Files => "Files"@,
            Tab::Tasks => "Tasks"@,
            Tab::Settings => "Settings"@,
        }
    }

    pub fn title(&self) -> (r: &'static str)
        ensures
            r@ == self.spec_title(),
    {
        match self {
            Tab::Chat => "Chat",
            Tab::Files => "Files",
            Tab::Tasks => "Tasks",
            Tab::Settings => "Settings",
        }
    }

    /// The pane at a navigation position.
    pub open spec fn spec_at(i: int) -> Tab {
        if i == 0 {
            Tab::Chat
        } else if i == 1 {
            Tab::Files
        } else if i == 2 {
            Tab::Tasks
        } else {
            Tab::Settings
        }
    }

    pub fn at(i: usize) -> (r: Tab)
        requires
            i < tab_count(),
        ensures
            r == Tab::spec_at(i as int),
    {
        if i == 0 {
            Tab::Chat
        } else if i == 1 {
            Tab::Files
        } else if i == 2 {
            Tab::Tasks
        } else {
            Tab::Settings
        }
    }
}

/// One key press, reduced to what the front-end state reacts to.
pub enum KeyInput {
    Char(char, bool),
    TabKey,
    BackTabKey,
    Esc,
    Other,
}

/// The front-end's state: which pane is active, the editor and
/// console contents, the status-line facts, and whether the help
/// overlay is shown. Wall-clock time stays outside; the shell reports
/// elapsed milliseconds through `tick`.
pub struct App {
    pub active_tab: usize,
    pub editor_text: String,
    pub console_lines: Vec<String>,
    pub model_name: String,
    pub branch: String,
    pub latency_ms: u64,
    pub show_help: bool,
}

impl App {
    pub open spec fn wf(&self) -> bool {
        self.active_tab < tab_count()
    }

    pub fn new() -> (r: App)
        ensures
            r.wf(),
            r.active_tab == 0,
            r.editor_text@ == "// Start typing…"@,
            r.console_lines.deep_view() =~= seq!["boot: ok"@, "lsp: connected"@],
            r.model_name@ == "gpt‑4.1‑mini"@,
            r.branch@ == "feat/lsp-wire"@,
            r.latency_ms == 42,
            r.show_help,
    {
        let mut console_lines: Vec<String> = Vec::new();
        console_lines.push(String::from_str("boot: ok"));
        console_lines.push(String::from_str("lsp: connected"));
        App {
            active_tab: 0,
            editor_text: String::from_str("// Start typing…"),
            console_lines,
            model_name: String::from_str("gpt‑4.1‑mini"),
            branch: String::from_str("feat/lsp-wire"),
            latency_ms: 42,
            show_help: true,
        }
    }

    /// Move to the next pane, wrapping around.
    pub fn next_tab(&mut self)
        requires
            old(self).wf(),
        ensures
            final(self).wf(),
            final(self).active_tab == (old(self).active_tab + 1) % tab_count(),
            *final(self) == (App { active_tab: final(self).active_tab, ..*old(self) }),
    {
        self.active_tab = (self.active_tab + 1) % 4;
    }

    /// Move to the previous pane, wrapping around.
    pub fn prev_tab(&mut self)
        requires
            old(self).wf(),
        ensures
            final(self).wf(),
            final(self).active_tab == (old(self).active_tab + 3) % tab_count(),
            *final(self) == (App { active_tab: final(self).active_tab, ..*old(self) }),
    {
        self.active_tab = (self.active_tab + 3) % 4;
    }

    pub fn current_tab(&self) -> (r: Tab)
        requires
            self.wf(),
        ensures
            r == Tab::spec_at(self.active_tab as int),
    {
        Tab::at(self.active_tab)
    }

    /// React to one key press and say whether the front-end should
    /// quit: Esc or Ctrl-C quits; Tab and Shift-Tab switch panes;
    /// Ctrl-H toggles the help overlay; Ctrl-J appends a console
    /// line; Ctrl-L clears the console; anything else does nothing.
    pub fn handle_key(&mut self, key: KeyInput) -> (quit: bool)
        requires
            old(self).wf(),
        ensures
            final(self).wf(),
            quit == (key == KeyInput::Esc || key == KeyInput::Char('c', true)),
            quit ==> *final(self) == *old(self),
            key == KeyInput::TabKey ==> final(self).active_tab == (old(self).active_tab + 1)
                % tab_count(),
            key == KeyInput::BackTabKey ==> final(self).active_tab == (old(self).active_tab + 3)
                % tab_count(),
            key == KeyInput::Char('h', true) ==> *final(self) == (App {
                show_help: !old(self).show_help,
                ..*old(self)
            }),
            key == KeyInput::Char('j', true) ==> *final(self) == (App {
                console_lines: final(self).console_lines,
                ..*old(self)
            }) && final(self).console_lines.deep_view() == old(self).console_lines.deep_view().push(
                "job queued"@,
            ),
            key == KeyInput::Char('l', true) ==> *final(self) == (App {
                console_lines: final(self).console_lines,
                ..*old(self)
            }) && final(self).console_lines.deep_view() =~= Seq::<Seq<char>>::empty(),
            key matches KeyInput::Char(c, ctrl) && !(c == 'c' && ctrl) && !(c == 'h' && ctrl) && !(c
                == 'j' && ctrl) && !(c == 'l' && ctrl) ==> *final(self) == *old(self),
            key == KeyInput::Other ==> *final(self) == *old(self),
    {
        match key {
            KeyInput::Esc => true,
            KeyInput::Char(c, ctrl) => {
                if c == 'c' && ctrl {
                    true
                } else {
                    if c == 'h' && ctrl {
                        self.show_help = !self.show_help;
                    } else if c == 'j' && ctrl {
                        let ghost before = self.console_lines.deep_view();
                        self.console_lines.push(String::from_str("job queued"));
                        proof {
                            assert(self.console_lines.deep_view() =~= before.push("job queued"@));
                        }
                    } else if c == 'l' && ctrl {
                        self.console_lines.clear();
                    }
                    false
                }
            },
            KeyInput::TabKey => {
                self.next_tab();
                false
            },
            KeyInput::BackTabKey => {
                self.prev_tab();
                false
            },
            KeyInput::Other => false,
        }
    }

    /// Refresh the latency reading from the elapsed wall-clock time
    /// the shell reports.
    pub fn tick(&mut self, elapsed_ms: u64)
        requires
            old(self).wf(),
        ensures
            final(self).wf(),
            final(self).latency_ms == 30 + ((elapsed_ms / 250) % 40),
            *final(self) == (App { latency_ms: final(self).latency_ms, ..*old(self) }),
    {
        self.latency_ms = 30 + ((elapsed_ms / 250) % 40);
    }

    /// The left half of the status line: the product name and the
    /// active pane's title.
    pub fn header_left_text(&self) -> (r: String)
        requires
            self.wf(),
        ensures
            r@ == " Zenocode ▸ "@ + Tab::spec_at(self.active_tab as int).spec_title() + " "@,
    {
        let mut r = String::from_str(" Zenocode ▸ ");
        r.append(self.current_tab().title());
        r.append(" ");
        r
    }

    /// The right half of the status line: model, branch and latency.
    pub fn header_right_text(&self) -> (r: String)
        requires
            self.wf(),
        ensures
            r@ == " model:"@ + self.model_name@ + "  branch:"@ + self.branch@ + "  latency:"@
                + spec_decimal(self.latency_ms as nat) + "ms "@,
    {
        let mut r = String::from_str(" model:");
        r.append(self.model_name.as_str());
        r.append("  branch:");
        r.append(self.branch.as_str());
        r.append("  latency:");
        let latency = u64_to_decimal(self.latency_ms);
        r.append(latency.as_str());
        r.append("ms ");
        r
    }

    /// What the main pane shows for the active tab.
    pub open spec fn spec_main_text(&self) -> Seq<char> {
        match Tab::spec_at(self.active_tab as int) {
            Tab::Chat => "Assistant: How can I help?\n> You: "@,
            Tab::Files => self.editor_text@,
            Tab::Tasks => "- [ ] Index repo\n- [ ] Generate types\n- [ ] Run tests"@,
            Tab::Settings => "• Model: gpt‑4.1‑mini\n• Temperature: 0.2\n• API endpoint: http://localhost:11434"@,
        }
    }

    pub fn main_text(&self) -> (r: &str)
        requires
            self.wf(),
        ensures
            r@ == self.spec_main_text(),
    {
        match self.current_tab() {
            Tab::Chat => "Assistant: How can I help?\n> You: ",
            Tab::Files => self.editor_text.as_str(),
            Tab::Tasks => "- [ ] Index repo\n- [ ] Generate types\n- [ ] Run tests",
            Tab::Settings => "• Model: gpt‑4.1‑mini\n• Temperature: 0.2\n• API endpoint: http://localhost:11434",
        }
    }

    /// The console lines that fit a pane of the given height, newest
    /// first: the last `capacity` lines in reverse order.
    pub fn visible_console_lines(&self, capacity: usize) -> (r: Vec<String>)
        ensures
            r.deep_view().len() == if capacity < self.console_lines@.len() {
                capacity as int
            } else {
                self.console_lines@.len() as int
            },
            forall|j: int|
                0 <= j < r.deep_view().len() ==> r.deep_view()[j] == self.console_lines.deep_view()[
                    self.console_lines@.len() - 1 - j
                ],
    {
        let total = self.console_lines.len();
        let shown = if capacity < total {
            capacity
        } else {
            total
        };
        let mut r: Vec<String> = Vec::new();
        let mut j: usize = 0;
        while j < shown
            invariant
                shown <= total,
                total == self.console_lines@.len(),
                j <= shown,
                r.deep_view().len() == j,
                forall|k: int|
                    0 <= k < j ==> r.deep_view()[k] == self.console_lines.deep_view()[total - 1
                        - k],
            decreases shown - j,
        {
            let ghost before = r.deep_view();
            r.push(self.console_lines[total - 1 - j].clone());
            proof {
                assert(r.deep_view() =~= before.push(
                    self.console_lines.deep_view()[total - 1 - j],
                ));
            }
            j = j + 1;
        }
        r
    }

    /// The help overlay's text.
    pub fn help_text(&self) -> (r: &'static str)
        ensures
            r@
                == "Keys:\n• Tab / Shift+Tab: switch tabs\n• Ctrl+H: toggle help\n• Ctrl+J: add console line\n• Ctrl+L: clear console\n• Esc / Ctrl+C: quit"@,
    {
        "Keys:\n• Tab / Shift+Tab: switch tabs\n• Ctrl+H: toggle help\n• Ctrl+J: add console line\n• Ctrl+L: clear console\n• Esc / Ctrl+C: quit"
    }
}

/// An axis-aligned screen rectangle in cell coordinates.
#[derive(Clone, Copy, PartialEq, Eq, Structural, Debug)]
pub struct Rect {
    pub x: u16,
    pub y: u16,
    pub width: u16,
    pub height: u16,
}

/// The centered sub-rectangle taking the given percentage of `r`'s
/// width and height — where a popup such as the help overlay goes.
/// The result lies inside `r`.
pub fn centered_rect(pct_x: u16, pct_y: u16, r: Rect) -> (c: Rect)
    requires
        pct_x <= 100,
        pct_y <= 100,
        r.x + r.width <= u16::MAX,
        r.y + r.height <= u16::MAX,
    ensures
        c.width == r.width * pct_x / 100,
        c.height == r.height * pct_y / 100,
        c.x == r.x + (r.width - c.width) / 2,
        c.y == r.y + (r.height - c.height) / 2,
        r.x <= c.x && c.x + c.width <= r.x + r.width,
        r.y <= c.y && c.y + c.height <= r.y + r.height,
{
    proof {
        assert(0 <= (r.width as int) * (pct_x as int) <= 6553500 && (r.width as int) * (
        pct_x as int) / 100 <= r.width) by (nonlinear_arith)
            requires
                pct_x <= 100,
                r.width <= 65535,
        ;
        assert(0 <= (r.height as int) * (pct_y as int) <= 6553500 && (r.height as int) * (
        pct_y as int) / 100 <= r.height) by (nonlinear_arith)
            requires
                pct_y <= 100,
                r.height <= 65535,
        ;
    }
    let w = ((r.width as u32) * (pct_x as u32) / 100) as u16;
    let h = ((r.height as u32) * (pct_y as u32) / 100) as u16;
    let x = r.x + (r.width - w) / 2;
    let y = r.y + (r.height - h) / 2;
    Rect { x, y, width: w, height: h }
}

} // verus!
