//! Descriptions of the processes that the launcher starts. The library says
//! what is to be run; the caller runs it.

use vstd::prelude::*;

use crate::paths::LocalPath;

verus! {

/// A word of a command line: plain text, or a location that the caller
/// writes out as a native path.
#[derive(Debug, Clone)]
pub enum Arg {
    Text(String),
    Path(LocalPath),
}

/// A word of a command line as plain values.
pub enum ArgView {
    Text(Seq<char>),
    Path(Seq<Seq<char>>),
}

impl View for Arg {
    type V = ArgView;

    open spec fn view(&self) -> ArgView {
        match self {
            Arg::Text(t) => ArgView::Text(t@),
            Arg::Path(p) => ArgView::Path(p@),
        }
    }
}

/// A variable of a process's environment.
#[derive(Debug, Clone)]
pub struct EnvVar {
    pub name: String,
    pub value: Arg,
}

/// A process to start.
#[derive(Debug, Clone)]
pub struct CommandSpec {
    pub program: Arg,
    pub args: Vec<Arg>,
    /// Variables added to the environment that the process inherits.
    pub env: Vec<EnvVar>,
    /// The directory in which it runs; the launcher's own where `None`.
    pub dir: Option<LocalPath>,
}

/// A process to start, as plain values.
pub struct CommandView {
    pub program: ArgView,
    pub args: Seq<ArgView>,
    pub env: Seq<(Seq<char>, ArgView)>,
    pub dir: Option<Seq<Seq<char>>>,
}

/// The views of a sequence of words.
pub open spec fn arg_views(args: Seq<Arg>) -> Seq<ArgView> {
    Seq::new(args.len(), |i: int| args[i]@)
}

/// The views of a sequence of variables.
pub open spec fn env_views(env: Seq<EnvVar>) -> Seq<(Seq<char>, ArgView)> {
    Seq::new(env.len(), |i: int| (env[i].name@, env[i].value@))
}

impl View for CommandSpec {
    type V = CommandView;

    open spec fn view(&self) -> CommandView {
        CommandView {
            program: self.program@,
            args: arg_views(self.args@),
            env: env_views(self.env@),
            dir: match self.dir {
                Some(d) => Some(d@),
                None => None,
            },
        }
    }
}

/// A word of plain text.
pub fn text(word: &str) -> (res: Arg)
    ensures
        res@ == ArgView::Text(word@),
{
    Arg::Text(word.to_owned())
}

/// A word that names a location.
pub fn location(path: &LocalPath) -> (res: Arg)
    ensures
        res@ == ArgView::Path(path@),
{
    Arg::Path(path.duplicate())
}

/// A variable that names a location.
pub fn variable(name: &str, value: LocalPath) -> (res: EnvVar)
    ensures
        res.name@ == name@,
        res.value@ == ArgView::Path(value@),
{
    EnvVar { name: name.to_owned(), value: Arg::Path(value) }
}

/// A variable that holds plain text.
pub fn text_variable(name: &str, value: &str) -> (res: EnvVar)
    ensures
        res.name@ == name@,
        res.value@ == ArgView::Text(value@),
{
    EnvVar { name: name.to_owned(), value: Arg::Text(value.to_owned()) }
}

} // verus!
