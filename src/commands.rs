//! The closed set of commands that users can give.
use vstd::prelude::*;

verus! {

/// A command given through the command interface.
#[derive(Debug)]
pub enum InteractionCommand {
    Play(String),
    Stop,
    Pause,
    Skip,
    Loop,
    Resume,
    Leave,
    Join,
    Queue,
    NotImplemented,
}

/// The command named `name`; `query` is the text of its `query` option, where
/// it has one that holds text.
pub open spec fn command_for(name: Seq<char>, query: Option<String>) -> InteractionCommand {
    if name == "play"@ {
        match query {
            Some(q) => InteractionCommand::Play(q),
            None => InteractionCommand::NotImplemented,
        }
    } else if name == "stop"@ {
        InteractionCommand::Stop
    } else if name == "pause"@ {
        InteractionCommand::Pause
    } else if name == "skip"@ {
        InteractionCommand::Skip
    } else if name == "loop"@ {
        InteractionCommand::Loop
    } else if name == "resume"@ {
        InteractionCommand::Resume
    } else if name == "leave"@ {
        InteractionCommand::Leave
    } else if name == "join"@ {
        InteractionCommand::Join
    } else if name == "queue"@ {
        InteractionCommand::Queue
    } else {
        InteractionCommand::NotImplemented
    }
}

fn is_named(name: &String, word: &str) -> (r: bool)
    ensures
        r == (name@ == word@),
{
    let w = word.to_owned();
    *name == w
}

impl InteractionCommand {
    /// Sorts a command by its name.
    pub fn from_parts(name: &str, query: Option<String>) -> (r: InteractionCommand)
        ensures
            r == command_for(name@, query),
    {
        let n = name.to_owned();
        if is_named(&n, "play") {
            match query {
                Some(q) => InteractionCommand::Play(q),
                None => InteractionCommand::NotImplemented,
            }
        } else if is_named(&n, "stop") {
            InteractionCommand::Stop
        } else if is_named(&n, "pause") {
            InteractionCommand::Pause
        } else if is_named(&n, "skip") {
            InteractionCommand::Skip
        } else if is_named(&n, "loop") {
            InteractionCommand::Loop
        } else if is_named(&n, "resume") {
            InteractionCommand::Resume
        } else if is_named(&n, "leave") {
            InteractionCommand::Leave
        } else if is_named(&n, "join") {
            InteractionCommand::Join
        } else if is_named(&n, "queue") {
            InteractionCommand::Queue
        } else {
            InteractionCommand::NotImplemented
        }
    }
}

} // verus!
