//! The shapes of the replies to commands. JSON decoding into them happens
//! outside this library; here they are plain data.
use vstd::prelude::*;
use std::collections::HashMap;
use crate::error::ProtocolError;

verus! {

/// Generic success reply.
#[derive(Clone, Debug, PartialEq, Eq, Hash)]
pub struct Success {
    pub success: bool,
    pub error: Option<String>,
}

/// One workspace of the workspaces reply.
#[derive(Clone, Debug, PartialEq, Eq, Hash)]
pub struct Workspace {
    pub id: usize,
    pub num: usize,
    pub name: String,
    pub visible: bool,
    pub focused: bool,
    pub focus: Option<Vec<usize>>,
    pub urgent: bool,
    pub rect: Rect,
    pub output: String,
}

/// Workspaces reply.
pub type Workspaces = Vec<Workspace>;

/// One output of the outputs reply.
#[derive(Clone, Debug, PartialEq, Eq, Hash)]
pub struct Output {
    pub name: String,
    pub active: bool,
    pub primary: bool,
    pub current_workspace: Option<String>,
    pub rect: Rect,
}

/// Outputs reply.
pub type Outputs = Vec<Output>;

/// A container of the layout tree. Two nodes are equal when their ids are.
/// The share of its parent that a node takes is held as the bit pattern of
/// the 64-bit float the window manager sends.
#[derive(Debug)]
pub struct Node {
    pub id: usize,
    pub name: Option<String>,
    pub num: Option<i32>,
    pub node_type: NodeType,
    pub layout: NodeLayout,
    pub output: Option<String>,
    pub orientation: NodeOrientation,
    pub border: NodeBorder,
    pub percent_bits: Option<u64>,
    pub rect: Rect,
    pub window_rect: Rect,
    pub deco_rect: Rect,
    pub geometry: Rect,
    pub window: Option<u32>,
    pub window_properties: Option<WindowProperties>,
    pub window_type: Option<WindowType>,
    pub current_border_width: i32,
    pub urgent: bool,
    pub marks: Option<Marks>,
    pub focused: bool,
    pub focus: Vec<usize>,
    pub sticky: bool,
    pub floating: Option<Floating>,
    pub floating_nodes: Vec<Node>,
    pub fullscreen_mode: FullscreenMode,
    pub nodes: Vec<Node>,
    pub app_id: Option<String>,
}

impl PartialEq for Node {
    fn eq(&self, other: &Node) -> (r: bool)
        ensures
            r == (self.id == other.id),
    {
        self.id == other.id
    }
}

impl vstd::std_specs::cmp::PartialEqSpecImpl for Node {
    open spec fn obeys_eq_spec() -> bool {
        true
    }

    open spec fn eq_spec(&self, other: &Node) -> bool {
        self.id == other.id
    }
}

impl Eq for Node {

}

/// The X11 properties of a window.
#[derive(Clone, Debug, PartialEq, Eq)]
pub struct WindowProperties {
    pub title: Option<String>,
    pub instance: Option<String>,
    pub class: Option<String>,
    pub window_role: Option<String>,
    pub transient_for: Option<u64>,
    pub window_type: Option<String>,
}

/// A value in a window's property map: text, or a number (the window that
/// a transient window belongs to).
#[derive(Clone, Debug, PartialEq, Eq)]
pub enum PropertyValue {
    Text(String),
    Number(u64),
}

/// The value that the entries give a property: `None` where no entry names
/// it, else the value of the last entry that does (`Some(None)` for null).
pub open spec fn entry_for(
    entries: Seq<(WindowProperty, Option<PropertyValue>)>,
    p: WindowProperty,
) -> Option<Option<PropertyValue>>
    decreases entries.len(),
{
    if entries.len() == 0 {
        None
    } else if entries.last().0 == p {
        Some(entries.last().1)
    } else {
        entry_for(entries.drop_last(), p)
    }
}

/// A text property read from its entry: `Some` of the field's value, or
/// `None` where the entry holds a number.
pub open spec fn text_field(e: Option<Option<PropertyValue>>) -> Option<Option<String>> {
    match e {
        Some(Some(PropertyValue::Text(s))) => Some(Some(s)),
        Some(Some(PropertyValue::Number(_))) => None,
        _ => Some(None),
    }
}

/// A number property read from its entry: `Some` of the field's value, or
/// `None` where the entry holds text.
pub open spec fn number_field(e: Option<Option<PropertyValue>>) -> Option<Option<u64>> {
    match e {
        Some(Some(PropertyValue::Number(n))) => Some(Some(n)),
        Some(Some(PropertyValue::Text(_))) => None,
        _ => Some(None),
    }
}

/// The slot of each property in the table that `from_entries` fills.
pub open spec fn property_slot(p: WindowProperty) -> int {
    match p {
        WindowProperty::Title => 0,
        WindowProperty::Instance => 1,
        WindowProperty::Class => 2,
        WindowProperty::WindowRole => 3,
        WindowProperty::TransientFor => 4,
        WindowProperty::WindowType => 5,
    }
}

fn slot_of(p: WindowProperty) -> (r: usize)
    ensures
        r == property_slot(p),
{
    match p {
        WindowProperty::Title => 0,
        WindowProperty::Instance => 1,
        WindowProperty::Class => 2,
        WindowProperty::WindowRole => 3,
        WindowProperty::TransientFor => 4,
        WindowProperty::WindowType => 5,
    }
}

fn take_text(e: Option<Option<PropertyValue>>) -> (r: Option<Option<String>>)
    ensures
        r == text_field(e),
{
    match e {
        Some(Some(PropertyValue::Text(s))) => Some(Some(s)),
        Some(Some(PropertyValue::Number(_))) => None,
        _ => Some(None),
    }
}

fn take_number(e: Option<Option<PropertyValue>>) -> (r: Option<Option<u64>>)
    ensures
        r == number_field(e),
{
    match e {
        Some(Some(PropertyValue::Number(n))) => Some(Some(n)),
        Some(Some(PropertyValue::Text(_))) => None,
        _ => Some(None),
    }
}

/// Whether every property of the entries holds a value of its kind: a
/// number for `TransientFor`, text for the others.
pub open spec fn entries_well_typed(entries: Seq<(WindowProperty, Option<PropertyValue>)>) -> bool {
    &&& text_field(entry_for(entries, WindowProperty::Title)) is Some
    &&& text_field(entry_for(entries, WindowProperty::Instance)) is Some
    &&& text_field(entry_for(entries, WindowProperty::Class)) is Some
    &&& text_field(entry_for(entries, WindowProperty::WindowRole)) is Some
    &&& number_field(entry_for(entries, WindowProperty::TransientFor)) is Some
    &&& text_field(entry_for(entries, WindowProperty::WindowType)) is Some
}

impl WindowProperties {
    /// Builds the properties from the entries of the property map. A
    /// property without entry, or with a null value, is `None`; where a
    /// property has several entries the last counts. It fails with
    /// `MalformedPayload` where a property holds a value of the wrong kind.
    pub fn from_entries(entries: Vec<(WindowProperty, Option<PropertyValue>)>) -> (r: Result<
        WindowProperties,
        ProtocolError,
    >)
        ensures
            r is Ok <==> entries_well_typed(entries@),
            r matches Err(e) ==> e == ProtocolError::MalformedPayload,
            r matches Ok(w) ==> {
                &&& Some(w.title) == text_field(entry_for(entries@, WindowProperty::Title))
                &&& Some(w.instance) == text_field(entry_for(entries@, WindowProperty::Instance))
                &&& Some(w.class) == text_field(entry_for(entries@, WindowProperty::Class))
                &&& Some(w.window_role) == text_field(
                    entry_for(entries@, WindowProperty::WindowRole),
                )
                &&& Some(w.transient_for) == number_field(
                    entry_for(entries@, WindowProperty::TransientFor),
                )
                &&& Some(w.window_type) == text_field(
                    entry_for(entries@, WindowProperty::WindowType),
                )
            },
    {
        let ghost all = entries@;
        let mut entries = entries;
        let mut found: Vec<Option<Option<PropertyValue>>> = vec![None, None, None, None, None, None];
        while entries.len() > 0
            invariant
                found@.len() == 6,
                forall|p: WindowProperty|
                    entry_for(all, p) == match #[trigger] found@[property_slot(p)] {
                        Some(v) => Some(v),
                        None => entry_for(entries@, p),
                    },
            decreases entries@.len(),
        {
            let ghost before = entries@;
            let (p, v) = entries.pop().unwrap();
            assert(entries@ == before.drop_last());
            let i = slot_of(p);
            if found[i].is_none() {
                found.set(i, Some(v));
            }
            assert forall|q: WindowProperty|
                entry_for(all, q) == match #[trigger] found@[property_slot(q)] {
                    Some(v) => Some(v),
                    None => entry_for(entries@, q),
                } by {
                if q != p {
                    assert(property_slot(q) != property_slot(p));
                }
            }
        }
        assert forall|p: WindowProperty| #[trigger] found@[property_slot(p)] == entry_for(all, p) by {
            assert(entry_for(entries@, p) == None::<Option<PropertyValue>>);
        }
        assert(found@[property_slot(WindowProperty::Title)] == entry_for(all, WindowProperty::Title));
        assert(found@[property_slot(WindowProperty::Instance)] == entry_for(all, WindowProperty::Instance));
        assert(found@[property_slot(WindowProperty::Class)] == entry_for(all, WindowProperty::Class));
        assert(found@[property_slot(WindowProperty::WindowRole)] == entry_for(all, WindowProperty::WindowRole));
        assert(found@[property_slot(WindowProperty::TransientFor)] == entry_for(all, WindowProperty::TransientFor));
        assert(found@[property_slot(WindowProperty::WindowType)] == entry_for(all, WindowProperty::WindowType));
        let window_type = take_text(found.pop().unwrap());
        let transient_for = take_number(found.pop().unwrap());
        let window_role = take_text(found.pop().unwrap());
        let class = take_text(found.pop().unwrap());
        let instance = take_text(found.pop().unwrap());
        let title = take_text(found.pop().unwrap());
        match (title, instance, class, window_role, transient_for, window_type) {
            (Some(title), Some(instance), Some(class), Some(window_role), Some(transient_for), Some(window_type)) => {
                Ok(WindowProperties { title, instance, class, window_role, transient_for, window_type })
            },
            _ => Err(ProtocolError::MalformedPayload),
        }
    }
}

#[derive(Clone, Copy, Debug, PartialEq, Eq, Hash, Structural)]
pub enum Floating {
    AutoOff,
    AutoOn,
    UserOff,
    UserOn,
}

/// Sent as the numbers 0, 1 and 2; 0 is `none` on the wire.
#[derive(Clone, Copy, Debug, PartialEq, Eq, Hash, Structural)]
pub enum FullscreenMode {
    NoFullscreen,
    Output,
    Global,
}

/// The keys of a window's property map.
#[derive(Clone, Copy, Debug, PartialEq, Eq, Hash, Structural)]
pub enum WindowProperty {
    Title,
    Instance,
    Class,
    WindowRole,
    TransientFor,
    WindowType,
}

#[derive(Clone, Copy, Debug, PartialEq, Eq, Hash, Structural)]
pub enum WindowType {
    Normal,
    Dock,
    Dialog,
    Utility,
    Toolbar,
    Splash,
    Menu,
    DropdownMenu,
    PopupMenu,
    Tooltip,
    Notification,
    Unknown,
}

#[derive(Clone, Copy, Debug, PartialEq, Eq, Hash, Structural)]
pub struct Rect {
    pub x: usize,
    pub y: usize,
    pub width: usize,
    pub height: usize,
}

#[derive(Clone, Copy, Debug, PartialEq, Eq, Hash, Structural)]
pub enum NodeType {
    Root,
    Output,
    Con,
    FloatingCon,
    Workspace,
    Dockarea,
}

/// `NoBorder` is `none` on the wire.
#[derive(Clone, Copy, Debug, PartialEq, Eq, Hash, Structural)]
pub enum NodeBorder {
    Normal,
    NoBorder,
    Pixel,
    CSD,
}

/// `NoLayout` is `none` on the wire.
#[derive(Clone, Copy, Debug, PartialEq, Eq, Hash, Structural)]
pub enum NodeLayout {
    SplitH,
    SplitV,
    Stacked,
    Tabbed,
    Dockarea,
    Output,
    NoLayout,
}

/// `NoOrientation` is `none` on the wire.
#[derive(Clone, Copy, Debug, PartialEq, Eq, Hash, Structural)]
pub enum NodeOrientation {
    Horizontal,
    Vertical,
    NoOrientation,
}

/// Marks reply.
#[derive(Clone, Debug, PartialEq, Eq, Hash)]
pub struct Marks(pub Vec<String>);

/// Bar ids reply.
#[derive(Clone, Debug, PartialEq, Eq, Hash)]
pub struct BarIds(pub Vec<String>);

/// Bar configuration reply.
#[derive(Clone, Debug, PartialEq, Eq)]
pub struct BarConfig {
    pub id: String,
    pub mode: String,
    pub position: String,
    pub status_command: String,
    pub font: String,
    pub workspace_buttons: bool,
    pub binding_mode_indicator: bool,
    pub verbose: bool,
    pub colors: HashMap<BarPart, String>,
}

/// The parts of a bar whose colour the bar configuration sets.
#[derive(Clone, Copy, Debug, PartialEq, Eq, Hash, Structural)]
pub enum BarPart {
    Background,
    Statusline,
    Separator,
    FocusedBackground,
    FocusedStatusline,
    FocusedSeparator,
    FocusedWorkspaceText,
    FocusedWorkspaceBg,
    FocusedWorkspaceBorder,
    ActiveWorkspaceText,
    ActiveWorkspaceBg,
    ActiveWorkspaceBorder,
    InactiveWorkspaceText,
    InactiveWorkspaceBg,
    InactiveWorkspaceBorder,
    UrgentWorkspaceText,
    UrgentWorkspaceBg,
    UrgentWorkspaceBorder,
    BindingModeText,
    BindingModeBg,
    BindingModeBorder,
}

/// Version reply.
#[derive(Clone, Debug, PartialEq, Eq, Hash)]
pub struct Version {
    pub major: usize,
    pub minor: usize,
    pub patch: usize,
    pub human_readable: String,
    pub loaded_config_file_name: String,
}

/// Binding modes reply.
#[derive(Clone, Debug, PartialEq, Eq, Hash)]
pub struct BindingModes(pub Vec<String>);

/// Config reply.
#[derive(Clone, Debug, PartialEq, Eq, Hash)]
pub struct Config {
    pub config: String,
}

} // verus!
