use crate::text::same_text;
use vstd::prelude::*;

verus! {

/// An entry of the application menu that the front-end reacts to.
#[derive(Debug, Clone, Copy, PartialEq, Eq, Structural)]
pub enum MenuEvent {
    NewCluster,
    AddMod,
    OpenMods,
    OpenScreenshots,
    OpenSettings,
    ReloadWebview,
    ToggleDeveloperTools,
}

/// What the application does when a menu entry is chosen.
#[derive(Debug, Clone, Copy, PartialEq, Eq)]
pub enum MenuAction {
    /// Tell the front-end that the key binding of this name was used.
    EmitKeybind(&'static str),
    /// Reload the main window.
    ReloadWebview,
    /// Open the developer tools, or close them where they are open.
    ToggleDeveloperTools,
}

/// The identifier of a menu entry: the name of the event.
pub open spec fn event_id(event: MenuEvent) -> Seq<char> {
    match event {
        MenuEvent::NewCluster => "NewCluster"@,
        MenuEvent::AddMod => "AddMod"@,
        MenuEvent::OpenMods => "OpenMods"@,
        MenuEvent::OpenScreenshots => "OpenScreenshots"@,
        MenuEvent::OpenSettings => "OpenSettings"@,
        MenuEvent::ReloadWebview => "ReloadWebview"@,
        MenuEvent::ToggleDeveloperTools => "ToggleDeveloperTools"@,
    }
}

/// The event with this identifier, if there is one.
pub open spec fn event_of(id: Seq<char>) -> Option<MenuEvent> {
    if id == "NewCluster"@ {
        Some(MenuEvent::NewCluster)
    } else if id == "AddMod"@ {
        Some(MenuEvent::AddMod)
    } else if id == "OpenMods"@ {
        Some(MenuEvent::OpenMods)
    } else if id == "OpenScreenshots"@ {
        Some(MenuEvent::OpenScreenshots)
    } else if id == "OpenSettings"@ {
        Some(MenuEvent::OpenSettings)
    } else if id == "ReloadWebview"@ {
        Some(MenuEvent::ReloadWebview)
    } else if id == "ToggleDeveloperTools"@ {
        Some(MenuEvent::ToggleDeveloperTools)
    } else {
        None
    }
}

/// Whether a menu entry is only of use while a cluster is open.
pub open spec fn cluster_locked(event: MenuEvent) -> bool {
    event == MenuEvent::AddMod || event == MenuEvent::OpenMods || event
        == MenuEvent::OpenScreenshots
}

impl MenuEvent {
    /// The identifier of the menu entry.
    pub fn as_ref(&self) -> (r: &'static str)
        ensures
            r@ == event_id(*self),
    {
        match self {
            MenuEvent::NewCluster => "NewCluster",
            MenuEvent::AddMod => "AddMod",
            MenuEvent::OpenMods => "OpenMods",
            MenuEvent::OpenScreenshots => "OpenScreenshots",
            MenuEvent::OpenSettings => "OpenSettings",
            MenuEvent::ReloadWebview => "ReloadWebview",
            MenuEvent::ToggleDeveloperTools => "ToggleDeveloperTools",
        }
    }

    /// The event with this identifier; `None` for the identifier of no event.
    pub fn from_id(id: &str) -> (r: Option<MenuEvent>)
        ensures
            r == event_of(id@),
    {
        if same_text(id, "NewCluster") {
            Some(MenuEvent::NewCluster)
        } else if same_text(id, "AddMod") {
            Some(MenuEvent::AddMod)
        } else if same_text(id, "OpenMods") {
            Some(MenuEvent::OpenMods)
        } else if same_text(id, "OpenScreenshots") {
            Some(MenuEvent::OpenScreenshots)
        } else if same_text(id, "OpenSettings") {
            Some(MenuEvent::OpenSettings)
        } else if same_text(id, "ReloadWebview") {
            Some(MenuEvent::ReloadWebview)
        } else if same_text(id, "ToggleDeveloperTools") {
            Some(MenuEvent::ToggleDeveloperTools)
        } else {
            None
        }
    }

    /// Whether the entry is only of use while a cluster is open.
    pub fn is_cluster_locked(&self) -> (r: bool)
        ensures
            r == cluster_locked(*self),
    {
        match self {
            MenuEvent::AddMod | MenuEvent::OpenMods | MenuEvent::OpenScreenshots => true,
            _ => false,
        }
    }
}

/// What the application does when a menu entry is chosen.
pub fn handle_menu_event(event: MenuEvent) -> (r: MenuAction)
    ensures
        match event {
            MenuEvent::NewCluster => r matches MenuAction::EmitKeybind(name)
                && name@ == "new_cluster"@,
            MenuEvent::AddMod => r matches MenuAction::EmitKeybind(name) && name@ == "add_mod"@,
            MenuEvent::OpenMods => r matches MenuAction::EmitKeybind(name) && name@ == "open_mods"@,
            MenuEvent::OpenScreenshots => r matches MenuAction::EmitKeybind(name) && name@
                == "open_screenshots"@,
            MenuEvent::OpenSettings => r matches MenuAction::EmitKeybind(name) && name@
                == "open_settings"@,
            MenuEvent::ReloadWebview => r == MenuAction::ReloadWebview,
            MenuEvent::ToggleDeveloperTools => r == MenuAction::ToggleDeveloperTools,
        },
{
    match event {
        MenuEvent::NewCluster => MenuAction::EmitKeybind("new_cluster"),
        MenuEvent::AddMod => MenuAction::EmitKeybind("add_mod"),
        MenuEvent::OpenMods => MenuAction::EmitKeybind("open_mods"),
        MenuEvent::OpenScreenshots => MenuAction::EmitKeybind("open_screenshots"),
        MenuEvent::OpenSettings => MenuAction::EmitKeybind("open_settings"),
        MenuEvent::ReloadWebview => MenuAction::ReloadWebview,
        MenuEvent::ToggleDeveloperTools => MenuAction::ToggleDeveloperTools,
    }
}

/// The menu entries that are switched together when a cluster is opened or closed.
pub fn cluster_locked_events() -> (r: Vec<MenuEvent>)
    ensures
        r@ == seq![MenuEvent::AddMod, MenuEvent::OpenMods, MenuEvent::OpenScreenshots],
{
    let mut out: Vec<MenuEvent> = Vec::new();
    out.push(MenuEvent::AddMod);
    out.push(MenuEvent::OpenMods);
    out.push(MenuEvent::OpenScreenshots);
    out
}

/// The identifier of an event names that event and no other.
pub proof fn lemma_event_id_round_trip(event: MenuEvent)
    ensures
        event_of(event_id(event)) == Some(event),
{
    reveal_strlit("NewCluster");
    reveal_strlit("AddMod");
    reveal_strlit("OpenMods");
    reveal_strlit("OpenScreenshots");
    reveal_strlit("OpenSettings");
    reveal_strlit("ReloadWebview");
    reveal_strlit("ToggleDeveloperTools");
    assert("AddMod"@.len() == 6);
    assert("OpenMods"@.len() == 8);
    assert("OpenScreenshots"@.len() == 15);
    assert("OpenSettings"@.len() == 12);
    assert("ReloadWebview"@.len() == 13);
    assert("ToggleDeveloperTools"@.len() == 20);
}

} // verus!
