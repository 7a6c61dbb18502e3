//! Events: the kinds a client subscribes to, the tag convention that marks
//! a frame as an event, and the event payloads.
use vstd::prelude::*;
use crate::error::ProtocolError;
use crate::reply::{BarConfig, Node};

verus! {

/// The kinds of event a client can subscribe to, with codes 0 to 7.
#[derive(Clone, Copy, Debug, PartialEq, Eq, Hash, Structural)]
pub enum Subscribe {
    Workspace,
    Output,
    Mode,
    Window,
    BarConfigUpdate,
    Binding,
    Shutdown,
    Tick,
}

/// The number of event kinds; codes run from 0 up to it, exclusive.
pub const EVENT_KIND_COUNT: u32 = 8;

/// Bit 31 of a type tag, set on event frames and clear on replies.
pub const EVENT_BIT: u32 = 0x8000_0000;

/// The type tag with bit 31 cleared.
pub const EVENT_MASK: u32 = 0x7fff_ffff;

/// The code of each event kind.
pub open spec fn subscribe_code(s: Subscribe) -> u32 {
    match s {
        Subscribe::Workspace => 0,
        Subscribe::Output => 1,
        Subscribe::Mode => 2,
        Subscribe::Window => 3,
        Subscribe::BarConfigUpdate => 4,
        Subscribe::Binding => 5,
        Subscribe::Shutdown => 6,
        Subscribe::Tick => 7,
    }
}

/// The event kind with the given code, if any.
pub open spec fn subscribe_of_code(n: u32) -> Option<Subscribe> {
    if n == 0 {
        Some(Subscribe::Workspace)
    } else if n == 1 {
        Some(Subscribe::Output)
    } else if n == 2 {
        Some(Subscribe::Mode)
    } else if n == 3 {
        Some(Subscribe::Window)
    } else if n == 4 {
        Some(Subscribe::BarConfigUpdate)
    } else if n == 5 {
        Some(Subscribe::Binding)
    } else if n == 6 {
        Some(Subscribe::Shutdown)
    } else if n == 7 {
        Some(Subscribe::Tick)
    } else {
        None
    }
}

/// The name under which a kind is subscribed to.
pub open spec fn subscribe_name(s: Subscribe) -> Seq<char> {
    match s {
        Subscribe::Workspace => "workspace"@,
        Subscribe::Output => "output"@,
        Subscribe::Mode => "mode"@,
        Subscribe::Window => "window"@,
        Subscribe::BarConfigUpdate => "barconfig_update"@,
        Subscribe::Binding => "binding"@,
        Subscribe::Shutdown => "shutdown"@,
        Subscribe::Tick => "tick"@,
    }
}

impl Subscribe {
    /// The kind's code.
    pub fn code(self) -> (r: u32)
        ensures
            r == subscribe_code(self),
            r < EVENT_KIND_COUNT,
    {
        match self {
            Subscribe::Workspace => 0,
            Subscribe::Output => 1,
            Subscribe::Mode => 2,
            Subscribe::Window => 3,
            Subscribe::BarConfigUpdate => 4,
            Subscribe::Binding => 5,
            Subscribe::Shutdown => 6,
            Subscribe::Tick => 7,
        }
    }

    /// The kind with the given code, if there is one.
    pub fn from_code(num: u32) -> (r: Option<Subscribe>)
        ensures
            r == subscribe_of_code(num),
            r is Some <==> num < EVENT_KIND_COUNT,
            r matches Some(s) ==> subscribe_code(s) == num,
    {
        match num {
            0 => Some(Subscribe::Workspace),
            1 => Some(Subscribe::Output),
            2 => Some(Subscribe::Mode),
            3 => Some(Subscribe::Window),
            4 => Some(Subscribe::BarConfigUpdate),
            5 => Some(Subscribe::Binding),
            6 => Some(Subscribe::Shutdown),
            7 => Some(Subscribe::Tick),
            _ => None,
        }
    }

    /// The name under which the kind is subscribed to.
    pub fn name(self) -> (r: &'static str)
        ensures
            r@ == subscribe_name(self),
    {
        match self {
            Subscribe::Workspace => "workspace",
            Subscribe::Output => "output",
            Subscribe::Mode => "mode",
            Subscribe::Window => "window",
            Subscribe::BarConfigUpdate => "barconfig_update",
            Subscribe::Binding => "binding",
            Subscribe::Shutdown => "shutdown",
            Subscribe::Tick => "tick",
        }
    }
}

/// Each event kind has its own code, and reading a code back gives the kind.
pub proof fn lemma_subscribe_code_round_trip(s: Subscribe)
    ensures
        subscribe_of_code(subscribe_code(s)) == Some(s),
        subscribe_code(s) < EVENT_KIND_COUNT,
{
}

/// The event kind that an event tag names: the tag with bit 31 cleared,
/// read as a kind code.
pub open spec fn event_kind_of_tag(tag: u32) -> Option<Subscribe> {
    subscribe_of_code(tag & EVENT_MASK)
}

/// Clears bit 31 of the tag and reads the rest as an event kind code. It
/// fails with `UnknownEventKind`, carrying the cleared value, where that
/// value names no kind.
pub fn event_kind(tag: u32) -> (r: Result<Subscribe, ProtocolError>)
    ensures
        r is Ok <==> event_kind_of_tag(tag) is Some,
        r matches Ok(s) ==> event_kind_of_tag(tag) == Some(s),
        r matches Err(e) ==> e == ProtocolError::UnknownEventKind(tag & EVENT_MASK),
{
    let code = tag & EVENT_MASK;
    match Subscribe::from_code(code) {
        Some(s) => Ok(s),
        None => Err(ProtocolError::UnknownEventKind(code)),
    }
}

/// Event bit masking: a tag with bit 31 set and low bits `k` names event
/// kind `k` where `k` is a kind code, and no kind otherwise.
pub proof fn lemma_event_bit_masking(k: u32)
    requires
        k <= EVENT_MASK,
    ensures
        (EVENT_BIT | k) & EVENT_MASK == k,
        EVENT_BIT | k >= EVENT_BIT,
        event_kind_of_tag(EVENT_BIT | k) == subscribe_of_code(k),
        k < EVENT_KIND_COUNT ==> event_kind_of_tag(EVENT_BIT | k) is Some,
        k >= EVENT_KIND_COUNT ==> event_kind_of_tag(EVENT_BIT | k) is None,
{
    assert((0x8000_0000u32 | k) & 0x7fff_ffffu32 == k) by (bit_vector)
        requires
            k <= 0x7fff_ffffu32,
    ;
    assert(0x8000_0000u32 | k >= 0x8000_0000u32) by (bit_vector);
}

/// An event, one variant per kind, each with its payload.
#[derive(Debug)]
pub enum Event {
    Workspace(Box<WorkspaceData>),
    Output(OutputData),
    Mode(ModeData),
    Window(Box<WindowData>),
    BarConfig(BarConfigData),
    Binding(BindingData),
    Shutdown(ShutdownData),
    Tick(TickData),
}

/// The kind of each event.
pub open spec fn event_kind_spec(e: &Event) -> Subscribe {
    match e {
        Event::Workspace(_) => Subscribe::Workspace,
        Event::Output(_) => Subscribe::Output,
        Event::Mode(_) => Subscribe::Mode,
        Event::Window(_) => Subscribe::Window,
        Event::BarConfig(_) => Subscribe::BarConfigUpdate,
        Event::Binding(_) => Subscribe::Binding,
        Event::Shutdown(_) => Subscribe::Shutdown,
        Event::Tick(_) => Subscribe::Tick,
    }
}

impl Event {
    /// The kind of the event.
    pub fn kind(&self) -> (r: Subscribe)
        ensures
            r == event_kind_spec(self),
    {
        match self {
            Event::Workspace(_) => Subscribe::Workspace,
            Event::Output(_) => Subscribe::Output,
            Event::Mode(_) => Subscribe::Mode,
            Event::Window(_) => Subscribe::Window,
            Event::BarConfig(_) => Subscribe::BarConfigUpdate,
            Event::Binding(_) => Subscribe::Binding,
            Event::Shutdown(_) => Subscribe::Shutdown,
            Event::Tick(_) => Subscribe::Tick,
        }
    }
}

#[derive(Clone, Copy, Debug, PartialEq, Eq, Hash, Structural)]
pub enum WorkspaceChange {
    Focus,
    Init,
    Empty,
    Urgent,
    Rename,
    Reload,
    Restored,
    Move,
}

#[derive(Debug)]
pub struct WorkspaceData {
    pub change: WorkspaceChange,
    pub current: Option<Node>,
    pub old: Option<Node>,
}

#[derive(Clone, Debug, PartialEq, Eq, Hash)]
pub struct OutputData {
    pub change: String,
}

#[derive(Clone, Debug, PartialEq, Eq, Hash)]
pub struct ModeData {
    pub change: String,
    pub pango_markup: bool,
}

#[derive(Debug)]
pub struct WindowData {
    pub change: WindowChange,
    pub container: Node,
}

#[derive(Clone, Copy, Debug, PartialEq, Eq, Hash, Structural)]
pub enum WindowChange {
    /// the window has become managed by the window manager
    New,
    /// the window has closed
    Close,
    /// the window has received input focus
    Focus,
    /// the window's title has changed
    Title,
    /// the window has entered or exited fullscreen mode
    FullscreenMode,
    /// the window has changed its position in the tree
    Move,
    /// the window has transitioned to or from floating
    Floating,
    /// the window has become urgent or lost its urgent status
    Urgent,
    /// a mark has been added to or removed from the window
    Mark,
}

/// The payload of a bar configuration update.
pub type BarConfigData = BarConfig;

#[derive(Clone, Debug, PartialEq, Eq, Hash)]
pub struct BindingData {
    pub change: String,
    pub binding: BindingObject,
}

#[derive(Clone, Debug, PartialEq, Eq, Hash)]
pub struct BindingObject {
    pub command: String,
    pub event_state_mask: Vec<String>,
    pub input_code: isize,
    pub symbol: Option<String>,
    pub input_type: BindType,
}

#[derive(Clone, Copy, Debug, PartialEq, Eq, Hash, Structural)]
pub enum BindType {
    Keyboard,
    Mouse,
}

#[derive(Clone, Copy, Debug, PartialEq, Eq, Hash, Structural)]
pub struct ShutdownData {
    pub change: ShutdownChange,
}

#[derive(Clone, Copy, Debug, PartialEq, Eq, Hash, Structural)]
pub enum ShutdownChange {
    Restart,
    Exit,
}

#[derive(Clone, Debug, PartialEq, Eq, Hash)]
pub struct TickData {
    pub first: bool,
    pub payload: String,
}

} // verus!
