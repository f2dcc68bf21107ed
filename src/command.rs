use vstd::prelude::*;

verus! {

/// An opaque name tag; two identifiers are equal when their text is.
pub struct Identifier(pub String);

impl Identifier {
    pub open spec fn view(&self) -> Seq<char> {
        self.0@
    }

    pub fn new(text: &str) -> (r: Identifier)
        ensures
            r@ == text@,
    {
        Identifier(text.to_owned())
    }

    pub fn as_str(&self) -> (r: &str)
        ensures
            r@ == self@,
    {
        self.0.as_str()
    }

    /// Equality by text.
    pub fn same_as(&self, other: &Identifier) -> (r: bool)
        ensures
            r == (self@ == other@),
    {
        self.0 == other.0
    }
}

impl Clone for Identifier {
    fn clone(&self) -> (r: Identifier)
        ensures
            r@ == self@,
    {
        Identifier(self.0.clone())
    }
}

/// A discrete, named action sent from the script to the host loop.
pub struct Command {
    pub name: Identifier,
}

impl Command {
    pub open spec fn view(&self) -> Seq<char> {
        self.name@
    }

    pub fn for_action(action: Action) -> (r: Command)
        ensures
            r@ == action_name(action),
    {
        Command { name: Identifier::new(action.name()) }
    }
}

impl Clone for Command {
    fn clone(&self) -> (r: Command)
        ensures
            r@ == self@,
    {
        Command { name: self.name.clone() }
    }
}

/// The discrete actions that the native functions can emit.
#[derive(Clone, Copy, PartialEq, Eq, Structural, Debug)]
pub enum Action {
    MoveForward,
    TurnLeft,
    TurnRight,
}

pub open spec fn action_name(action: Action) -> Seq<char> {
    match action {
        Action::MoveForward => "MoveForward"@,
        Action::TurnLeft => "TurnLeft"@,
        Action::TurnRight => "TurnRight"@,
    }
}

impl Action {
    /// The text of the identifier that names this action's command.
    pub fn name(self) -> (r: &'static str)
        ensures
            r@ == action_name(self),
    {
        match self {
            Action::MoveForward => "MoveForward",
            Action::TurnLeft => "TurnLeft",
            Action::TurnRight => "TurnRight",
        }
    }
}

} // verus!
