//! The tray's context menu: its two commands, their identifiers and labels.
use vstd::prelude::*;
use vstd::string::*;

verus! {

/// The commands that the tray menu offers.
#[derive(Debug, Clone, Copy, PartialEq, Eq, Structural)]
pub enum CommandId {
    /// Reveal the primary window and give it focus.
    Show,
    /// Terminate the application.
    Quit,
}

impl CommandId {
    /// The stable identifier by which the host reports the command.
    pub open spec fn id_view(self) -> Seq<char> {
        match self {
            CommandId::Show => "show"@,
            CommandId::Quit => "quit"@,
        }
    }

    /// The text that the menu shows for the command.
    pub open spec fn label_view(self) -> Seq<char> {
        match self {
            CommandId::Show => "显示窗口"@,
            CommandId::Quit => "退出"@,
        }
    }

    /// The identifier of this command.
    pub fn id(&self) -> (r: &'static str)
        ensures
            r@ == self.id_view(),
    {
        match self {
            CommandId::Show => "show",
            CommandId::Quit => "quit",
        }
    }

    /// The display label of this command.
    pub fn label(&self) -> (r: &'static str)
        ensures
            r@ == self.label_view(),
    {
        match self {
            CommandId::Show => "显示窗口",
            CommandId::Quit => "退出",
        }
    }

    /// Decodes an identifier reported by the host; unknown identifiers give `None`.
    pub fn from_id(id: &str) -> (r: Option<CommandId>)
        ensures
            r == command_of(id@),
    {
        if str_eq(id, "show") {
            Some(CommandId::Show)
        } else if str_eq(id, "quit") {
            Some(CommandId::Quit)
        } else {
            None
        }
    }
}

/// The command that an identifier names, if any.
pub open spec fn command_of(id: Seq<char>) -> Option<CommandId> {
    if id == CommandId::Show.id_view() {
        Some(CommandId::Show)
    } else if id == CommandId::Quit.id_view() {
        Some(CommandId::Quit)
    } else {
        None
    }
}

/// Character-wise equality of two strings.
pub fn str_eq(a: &str, b: &str) -> (r: bool)
    ensures
        r == (a@ == b@),
{
    let n: usize = a.unicode_len();
    if n != b.unicode_len() {
        return false;
    }
    let mut i: usize = 0;
    while i < n
        invariant
            n == a@.len(),
            n == b@.len(),
            i <= n,
            a@.subrange(0, i as int) == b@.subrange(0, i as int),
        decreases n - i,
    {
        if a.get_char(i) != b.get_char(i) {
            return false;
        }
        assert(a@.subrange(0, i + 1) == a@.subrange(0, i as int).push(a@[i as int]));
        assert(b@.subrange(0, i + 1) == b@.subrange(0, i as int).push(b@[i as int]));
        i = i + 1;
    }
    assert(a@ == a@.subrange(0, n as int));
    assert(b@ == b@.subrange(0, n as int));
    true
}

/// One entry of the tray menu: a command and the text shown for it.
#[derive(Debug, PartialEq, Eq)]
pub struct MenuCommand {
    pub id: CommandId,
    pub label: String,
}

/// The tray menu in display order: "show" first, then "quit", each with its label.
pub fn tray_menu() -> (r: Vec<MenuCommand>)
    ensures
        r@.len() == 2,
        r@[0].id == CommandId::Show,
        r@[1].id == CommandId::Quit,
        forall|i: int| 0 <= i < r@.len() ==> #[trigger] r@[i].label@ == r@[i].id.label_view(),
{
    let show = MenuCommand { id: CommandId::Show, label: String::from_str(CommandId::Show.label()) };
    let quit = MenuCommand { id: CommandId::Quit, label: String::from_str(CommandId::Quit.label()) };
    let mut r: Vec<MenuCommand> = Vec::new();
    r.push(show);
    r.push(quit);
    r
}

} // verus!
