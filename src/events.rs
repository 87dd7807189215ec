use vstd::prelude::*;

verus! {

/// Events raised by the user interface.
#[derive(Clone, Copy, Debug, PartialEq, Eq, Structural)]
pub enum UIEvent {
    /// The user asked to capture from the input device at this index.
    RequestChangeAudioDevice(usize),
    /// A row was picked in a dropdown: the row's position, then the
    /// identifier of the dropdown.
    Selection(usize, usize),
    /// The user asked for the renderer at this position of the list.
    RequestChangeRenderer(usize),
}

/// Identifies the dropdown that lists the input devices.
pub const AUDIO_IO_ID: usize = 1;

/// Identifies the dropdown that lists the renderers.
pub const RENDERER_ID: usize = 2;

/// The request a dropdown selection stands for.
pub open spec fn routed(event: UIEvent) -> Option<UIEvent> {
    match event {
        UIEvent::Selection(row, id) => if id == AUDIO_IO_ID {
            Some(UIEvent::RequestChangeAudioDevice(row))
        } else if id == RENDERER_ID {
            Some(UIEvent::RequestChangeRenderer(row))
        } else {
            None
        },
        _ => None,
    }
}

/// Turns a selection in one of the dropdowns into the request it stands
/// for; any other event, or a selection in an unknown dropdown, gives none.
pub fn route_selection(event: UIEvent) -> (r: Option<UIEvent>)
    ensures
        r == routed(event),
{
    match event {
        UIEvent::Selection(row, id) => {
            if id == AUDIO_IO_ID {
                Some(UIEvent::RequestChangeAudioDevice(row))
            } else if id == RENDERER_ID {
                Some(UIEvent::RequestChangeRenderer(row))
            } else {
                None
            }
        },
        _ => None,
    }
}

/// The renderers an application can show, in the order it lists them.
#[derive(Clone, Copy, Debug, PartialEq, Eq, Structural)]
pub enum RendererKind {
    Frequalizer,
    EyeOfHal,
    StereoTree,
}

impl RendererKind {
    /// The renderer at position `id` of the list; an unknown position
    /// falls back to the first renderer.
    pub open spec fn from_id_spec(id: usize) -> RendererKind {
        if id == 1 {
            RendererKind::EyeOfHal
        } else if id == 2 {
            RendererKind::StereoTree
        } else {
            RendererKind::Frequalizer
        }
    }

    /// The renderer at position `id` of the list; an unknown position
    /// falls back to the first renderer.
    pub fn from_id(id: usize) -> (r: RendererKind)
        ensures
            r == Self::from_id_spec(id),
    {
        if id == 1 {
            RendererKind::EyeOfHal
        } else if id == 2 {
            RendererKind::StereoTree
        } else {
            RendererKind::Frequalizer
        }
    }

    /// The position of this renderer in the list.
    pub open spec fn position_spec(&self) -> usize {
        match self {
            RendererKind::Frequalizer => 0,
            RendererKind::EyeOfHal => 1,
            RendererKind::StereoTree => 2,
        }
    }

    /// The position of this renderer in the list.
    pub fn position(&self) -> (r: usize)
        ensures
            r == self.position_spec(),
            Self::from_id_spec(r) == *self,
    {
        match self {
            RendererKind::Frequalizer => 0,
            RendererKind::EyeOfHal => 1,
            RendererKind::StereoTree => 2,
        }
    }
}

/// What the application does in answer to an event of the user interface.
#[derive(Clone, Copy, Debug, PartialEq, Eq, Structural)]
pub enum AppAction {
    /// Stop the capture stream and restart it on this device.
    SwitchAudioDevice(usize),
    /// Replace the active renderer.
    ShowRenderer(RendererKind),
    /// Nothing to do.
    Ignore,
}

/// The action for an event of the user interface.
pub open spec fn action_for(event: UIEvent) -> AppAction {
    match event {
        UIEvent::RequestChangeAudioDevice(index) => AppAction::SwitchAudioDevice(index),
        UIEvent::RequestChangeRenderer(id) => AppAction::ShowRenderer(RendererKind::from_id_spec(id)),
        UIEvent::Selection(_, _) => AppAction::Ignore,
    }
}

/// Decides how the application answers an event of the user interface.
pub fn dispatch_ui_event(event: UIEvent) -> (r: AppAction)
    ensures
        r == action_for(event),
{
    match event {
        UIEvent::RequestChangeAudioDevice(index) => AppAction::SwitchAudioDevice(index),
        UIEvent::RequestChangeRenderer(id) => AppAction::ShowRenderer(RendererKind::from_id(id)),
        UIEvent::Selection(_, _) => AppAction::Ignore,
    }
}

} // verus!
