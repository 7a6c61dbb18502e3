//! The commands a client sends, each with its fixed numeric code.
use vstd::prelude::*;

verus! {

/// A command sent to the window manager. Its code is the frame's type tag.
#[derive(Clone, Copy, Debug, PartialEq, Eq, Hash, Structural)]
pub enum Msg {
    RunCommand,
    Workspaces,
    Subscribe,
    Outputs,
    Tree,
    Marks,
    BarConfig,
    Version,
    BindingModes,
    Config,
    Tick,
    Sync,
    BindingState,
}

/// The code of each command.
pub open spec fn msg_code(m: Msg) -> u32 {
    match m {
        Msg::RunCommand => 0,
        Msg::Workspaces => 1,
        Msg::Subscribe => 2,
        Msg::Outputs => 3,
        Msg::Tree => 4,
        Msg::Marks => 5,
        Msg::BarConfig => 6,
        Msg::Version => 7,
        Msg::BindingModes => 8,
        Msg::Config => 9,
        Msg::Tick => 10,
        Msg::Sync => 11,
        Msg::BindingState => 12,
    }
}

/// The command with the given code, if any.
pub open spec fn msg_of_code(n: u32) -> Option<Msg> {
    if n == 0 {
        Some(Msg::RunCommand)
    } else if n == 1 {
        Some(Msg::Workspaces)
    } else if n == 2 {
        Some(Msg::Subscribe)
    } else if n == 3 {
        Some(Msg::Outputs)
    } else if n == 4 {
        Some(Msg::Tree)
    } else if n == 5 {
        Some(Msg::Marks)
    } else if n == 6 {
        Some(Msg::BarConfig)
    } else if n == 7 {
        Some(Msg::Version)
    } else if n == 8 {
        Some(Msg::BindingModes)
    } else if n == 9 {
        Some(Msg::Config)
    } else if n == 10 {
        Some(Msg::Tick)
    } else if n == 11 {
        Some(Msg::Sync)
    } else if n == 12 {
        Some(Msg::BindingState)
    } else {
        None
    }
}

/// The number of commands; codes run from 0 up to it, exclusive.
pub const MSG_COUNT: u32 = 13;

impl Msg {
    /// The command's code.
    pub fn code(self) -> (r: u32)
        ensures
            r == msg_code(self),
            r < MSG_COUNT,
    {
        match self {
            Msg::RunCommand => 0,
            Msg::Workspaces => 1,
            Msg::Subscribe => 2,
            Msg::Outputs => 3,
            Msg::Tree => 4,
            Msg::Marks => 5,
            Msg::BarConfig => 6,
            Msg::Version => 7,
            Msg::BindingModes => 8,
            Msg::Config => 9,
            Msg::Tick => 10,
            Msg::Sync => 11,
            Msg::BindingState => 12,
        }
    }

    /// The command with the given code, if there is one.
    pub fn from_code(num: u32) -> (r: Option<Msg>)
        ensures
            r == msg_of_code(num),
            r is Some <==> num < MSG_COUNT,
            r matches Some(m) ==> msg_code(m) == num,
    {
        match num {
            0 => Some(Msg::RunCommand),
            1 => Some(Msg::Workspaces),
            2 => Some(Msg::Subscribe),
            3 => Some(Msg::Outputs),
            4 => Some(Msg::Tree),
            5 => Some(Msg::Marks),
            6 => Some(Msg::BarConfig),
            7 => Some(Msg::Version),
            8 => Some(Msg::BindingModes),
            9 => Some(Msg::Config),
            10 => Some(Msg::Tick),
            11 => Some(Msg::Sync),
            12 => Some(Msg::BindingState),
            _ => None,
        }
    }
}

/// Each command has its own code, and reading a code back gives the command.
pub proof fn lemma_msg_code_round_trip(m: Msg)
    ensures
        msg_of_code(msg_code(m)) == Some(m),
        msg_code(m) < MSG_COUNT,
{
}

/// The command kinds of the older, twelve-command protocol, indexed from 0.
#[derive(Clone, Copy, Debug, PartialEq, Eq, Hash, Structural)]
pub enum Type {
    RunCommand,
    Workspaces,
    Subscribe,
    Outputs,
    Tree,
    Marks,
    BarConfig,
    Version,
    BindingModes,
    Config,
    Tick,
    Sync,
}

/// The index of each kind of the older protocol.
pub open spec fn type_index(t: Type) -> usize {
    match t {
        Type::RunCommand => 0,
        Type::Workspaces => 1,
        Type::Subscribe => 2,
        Type::Outputs => 3,
        Type::Tree => 4,
        Type::Marks => 5,
        Type::BarConfig => 6,
        Type::Version => 7,
        Type::BindingModes => 8,
        Type::Config => 9,
        Type::Tick => 10,
        Type::Sync => 11,
    }
}

impl Type {
    /// The kind with the given index, if there is one.
    pub fn from_index(num: usize) -> (r: Option<Type>)
        ensures
            r is Some <==> num < 12,
            r matches Some(t) ==> type_index(t) == num,
    {
        match num {
            0 => Some(Type::RunCommand),
            1 => Some(Type::Workspaces),
            2 => Some(Type::Subscribe),
            3 => Some(Type::Outputs),
            4 => Some(Type::Tree),
            5 => Some(Type::Marks),
            6 => Some(Type::BarConfig),
            7 => Some(Type::Version),
            8 => Some(Type::BindingModes),
            9 => Some(Type::Config),
            10 => Some(Type::Tick),
            11 => Some(Type::Sync),
            _ => None,
        }
    }
}

} // verus!
