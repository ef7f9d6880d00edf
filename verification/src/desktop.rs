//! Decisions of the desktop application around the bridge: how it starts,
//! what the entries of its tray menu do, and how a file is opened.

use vstd::prelude::*;
use vstd::string::*;
use crate::text::same_text;

verus! {

/// The arguments ask for a start without a window: one of them is
/// `--hidden`.
pub open spec fn asks_hidden(args: Seq<Seq<char>>) -> bool {
    exists|i: int| 0 <= i < args.len() && #[trigger] args[i] == "--hidden"@
}

/// Whether the application starts without showing its window.
pub fn starts_hidden(args: &Vec<String>) -> (hidden: bool)
    ensures
        hidden == asks_hidden(args.deep_view()),
{
    let mut i: usize = 0;
    while i < args.len()
        invariant
            i <= args.len(),
            forall|k: int| 0 <= k < i ==> #[trigger] args.deep_view()[k] != "--hidden"@,
        decreases args.len() - i,
    {
        if same_text(args[i].as_str(), "--hidden") {
            assert(args.deep_view()[i as int] == "--hidden"@);
            return true;
        }
        i += 1;
    }
    false
}

/// What an entry of the tray menu does.
#[derive(Clone, Copy, Debug, PartialEq, Eq, Structural)]
pub enum TrayAction {
    /// Show the main window and give it the focus.
    ShowWindow,
    /// Pause the downloads in flight, then leave, whether or not the pause
    /// succeeded.
    PauseAndExit,
    /// The entry is not one of the menu's.
    Nothing,
}

/// The action of the tray menu entry with the identifier `id`.
pub fn tray_menu_action(id: &str) -> (action: TrayAction)
    ensures
        action == if id@ == "show"@ {
            TrayAction::ShowWindow
        } else if id@ == "quit"@ {
            TrayAction::PauseAndExit
        } else {
            TrayAction::Nothing
        },
{
    if same_text(id, "show") {
        TrayAction::ShowWindow
    } else if same_text(id, "quit") {
        TrayAction::PauseAndExit
    } else {
        TrayAction::Nothing
    }
}

/// How a file is to be opened.
#[derive(Clone, Debug, PartialEq, Eq)]
pub enum OpenRequest {
    /// Show the file in the file manager.
    Reveal,
    /// Open the file with the named application.
    OpenWith { app: String },
    /// Open the file with the application that the system picks.
    OpenDefault,
}

/// How a file is to be opened, given the application that was asked for: the
/// name `explorer` stands for the file manager.
pub fn open_request(app_name: Option<String>) -> (request: OpenRequest)
    ensures
        request == match app_name {
            Some(app) => if app@ == "explorer"@ {
                OpenRequest::Reveal
            } else {
                OpenRequest::OpenWith { app }
            },
            None => OpenRequest::OpenDefault,
        },
{
    match app_name {
        Some(app) => {
            if same_text(app.as_str(), "explorer") {
                OpenRequest::Reveal
            } else {
                OpenRequest::OpenWith { app }
            }
        },
        None => OpenRequest::OpenDefault,
    }
}

} // verus!
