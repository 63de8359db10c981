//! What is done in the way of the platform, whichever backend is in use:
//! choosing between the two backends, and asking the terminal for its size
//! and for the position of its cursor.

use crate::kernel::windows_kernel::ansi_support::{
    capability,
    capability_of,
    recorded,
    windows_supportable,
    CapabilityState,
};
use crate::kernel::windows_kernel::kernel::ScreenBufferInfo;
use crate::kernel::{Action, Fatal, Query, Reply, Request, StdStream};
use crate::state::commands::win_commands::{untried, EnableAnsiCommand};
use crate::state::commands::{Command, ICommand};
use crate::state::Context;
use vstd::prelude::*;

verus! {

/// The kind of system that hosts the process.
#[derive(Clone, Copy, Debug, PartialEq, Eq)]
pub enum Platform {
    /// A system with a native console beside the escape sequences.
    Windows,
    /// A system whose terminals know escape sequences only.
    Unix,
}

/// One of the two backends.
#[derive(Clone, Copy, Debug, PartialEq, Eq)]
pub enum Backend {
    /// The backend that writes escape sequences.
    Ansi,
    /// The backend that calls the native console.
    WinApi,
}

/// The backend that is to be used: the native console only on a platform that
/// has one and whose console is not known to support escape sequences.
pub open spec fn chosen_backend(platform: Platform, support: CapabilityState) -> Backend {
    if platform is Windows && support.does_windows_support_ansi != Some(true) {
        Backend::WinApi
    } else {
        Backend::Ansi
    }
}

/// Chooses the backend from what the platform is and what the detection
/// recorded.
pub fn choose_backend(platform: Platform, support: &CapabilityState) -> (backend: Backend)
    ensures
        backend == chosen_backend(platform, *support),
{
    match platform {
        Platform::Windows => {
            if windows_supportable(support) {
                Backend::Ansi
            } else {
                Backend::WinApi
            }
        },
        Platform::Unix => Backend::Ansi,
    }
}

/// Gives the implementation of a module that fits the platform: of the two
/// that are handed in, the one for the native console where that backend is
/// chosen, else the one for escape sequences.
pub fn get_module<T>(
    winapi_impl: T,
    unix_impl: T,
    platform: Platform,
    support: &CapabilityState,
) -> (term: Option<T>)
    ensures
        term == Some(
            if chosen_backend(platform, *support) is WinApi {
                winapi_impl
            } else {
                unix_impl
            },
        ),
{
    match choose_backend(platform, support) {
        Backend::WinApi => Some(winapi_impl),
        Backend::Ansi => Some(unix_impl),
    }
}

/// The columns and rows that a window of the console shows.
pub open spec fn window_size(info: ScreenBufferInfo) -> (u16, u16) {
    (
        span(info.window.left, info.window.right),
        span(info.window.top, info.window.bottom),
    )
}

/// The distance from `low` to `high`, and zero where `high` lies below.
pub open spec fn span(low: i16, high: i16) -> u16 {
    if high >= low {
        (high - low) as u16
    } else {
        0
    }
}

fn distance(low: i16, high: i16) -> (d: u16)
    ensures
        d == span(low, high),
{
    if high >= low {
        ((high as i32) - (low as i32)) as u16
    } else {
        0
    }
}

/// The position of the cursor that a report of the console holds. A
/// coordinate is taken as the console gives it, as sixteen bits without a
/// sign.
pub open spec fn cursor_position(info: ScreenBufferInfo) -> (u16, u16) {
    (info.cursor_position.x as u16, info.cursor_position.y as u16)
}

/// Reads the position of the cursor off a report of the console.
pub fn position_in(info: &ScreenBufferInfo) -> (position: (u16, u16))
    ensures
        position == cursor_position(*info),
{
    (
        #[verifier::truncate]
        (info.cursor_position.x as u16),
        #[verifier::truncate]
        (info.cursor_position.y as u16),
    )
}

/// One step of asking for the size of the terminal. The console is asked for
/// its screen buffer, whose window gives the size; without a report the
/// condition is fatal. A terminal device is asked for the size of its window;
/// without an answer the size is given as zero by zero. A reply that is no
/// answer to the question gives zero by zero as well.
pub open spec fn terminal_size_spec(platform: Platform, reply: Reply) -> Query {
    match platform {
        Platform::Windows => match reply {
            Reply::Start => Query::Call(Request::GetConsoleScreenBufferInfo),
            Reply::ScreenBufferInfo(Some(info)) => Query::Found(
                window_size(info).0,
                window_size(info).1,
            ),
            Reply::ScreenBufferInfo(None) => Query::Fatal(Fatal::ScreenBufferInfo),
            _ => Query::Found(0, 0),
        },
        Platform::Unix => match reply {
            Reply::Start => Query::Call(Request::GetWindowSize),
            Reply::WindowSize(Some(size)) => Query::Found(size.0, size.1),
            _ => Query::Found(0, 0),
        },
    }
}

/// One step of asking for the position of the cursor. The console is asked
/// for its screen buffer, which holds the position; without a report the
/// condition is fatal. A terminal device is asked for the position itself;
/// without an answer that can be understood the position is given as the
/// origin. A reply that is no answer to the question gives the origin as well.
pub open spec fn cursor_position_spec(platform: Platform, reply: Reply) -> Query {
    match platform {
        Platform::Windows => match reply {
            Reply::Start => Query::Call(Request::GetConsoleScreenBufferInfo),
            Reply::ScreenBufferInfo(Some(info)) => Query::Found(
                cursor_position(info).0,
                cursor_position(info).1,
            ),
            Reply::ScreenBufferInfo(None) => Query::Fatal(Fatal::ScreenBufferInfo),
            _ => Query::Found(0, 0),
        },
        Platform::Unix => match reply {
            Reply::Start => Query::Call(Request::GetCursorPosition),
            Reply::CursorPosition(Some(position)) => Query::Found(position.0, position.1),
            _ => Query::Found(0, 0),
        },
    }
}

/// Takes the query for the size of the terminal a step further.
pub fn get_terminal_size(platform: Platform, reply: Reply) -> (query: Query)
    ensures
        query == terminal_size_spec(platform, reply),
{
    match platform {
        Platform::Windows => match reply {
            Reply::Start => Query::Call(Request::GetConsoleScreenBufferInfo),
            Reply::ScreenBufferInfo(Some(info)) => Query::Found(
                distance(info.window.left, info.window.right),
                distance(info.window.top, info.window.bottom),
            ),
            Reply::ScreenBufferInfo(None) => Query::Fatal(Fatal::ScreenBufferInfo),
            _ => Query::Found(0, 0),
        },
        Platform::Unix => match reply {
            Reply::Start => Query::Call(Request::GetWindowSize),
            Reply::WindowSize(Some(size)) => Query::Found(size.0, size.1),
            _ => Query::Found(0, 0),
        },
    }
}

/// Takes the query for the position of the cursor a step further.
pub fn get_cursor_position(platform: Platform, reply: Reply) -> (query: Query)
    ensures
        query == cursor_position_spec(platform, reply),
{
    match platform {
        Platform::Windows => match reply {
            Reply::Start => Query::Call(Request::GetConsoleScreenBufferInfo),
            Reply::ScreenBufferInfo(Some(info)) => {
                let position = position_in(&info);
                Query::Found(position.0, position.1)
            },
            Reply::ScreenBufferInfo(None) => Query::Fatal(Fatal::ScreenBufferInfo),
            _ => Query::Found(0, 0),
        },
        Platform::Unix => match reply {
            Reply::Start => Query::Call(Request::GetCursorPosition),
            Reply::CursorPosition(Some(position)) => Query::Found(position.0, position.1),
            _ => Query::Found(0, 0),
        },
    }
}

/// The three surfaces that a backend is chosen for.
#[derive(Clone, Copy, Debug, PartialEq, Eq)]
pub enum Contract {
    Cursor,
    Terminal,
    Color,
}

/// What a resolution wants next, or what it came to.
#[derive(Clone, Copy, Debug, PartialEq, Eq)]
pub enum Resolution {
    /// Make this call and come back with its reply.
    Call(Request),
    /// The backend to use.
    Resolved(Backend),
    /// The resolution met a condition that the process cannot survive.
    Fatal(Fatal),
}

/// Chooses, once for each surface, the backend that the surface uses for the
/// rest of the process.
#[derive(Clone, Copy, Debug, PartialEq, Eq)]
pub struct BackendSelector {
    /// The platform that hosts the process.
    pub platform: Platform,
    /// The backend of the cursor, once chosen.
    pub cursor: Option<Backend>,
    /// The backend of the terminal, once chosen.
    pub terminal: Option<Backend>,
    /// The backend of the colours, once chosen.
    pub color: Option<Backend>,
    /// The identity of the command of the detection that is under way.
    pub probe: Option<u64>,
}

impl BackendSelector {
    /// A selector that has chosen nothing yet.
    pub fn new(platform: Platform) -> (selector: BackendSelector)
        ensures
            selector == (BackendSelector {
                platform,
                cursor: None,
                terminal: None,
                color: None,
                probe: None,
            }),
    {
        BackendSelector { platform, cursor: None, terminal: None, color: None, probe: None }
    }

    /// The backend that is held for a surface, if one was chosen.
    pub open spec fn held(self, contract: Contract) -> Option<Backend> {
        match contract {
            Contract::Cursor => self.cursor,
            Contract::Terminal => self.terminal,
            Contract::Color => self.color,
        }
    }

    /// The selector with a backend held for a surface, and no detection under
    /// way.
    pub open spec fn holding(self, contract: Contract, backend: Backend) -> BackendSelector {
        match contract {
            Contract::Cursor => BackendSelector { cursor: Some(backend), probe: None, ..self },
            Contract::Terminal => BackendSelector { terminal: Some(backend), probe: None, ..self },
            Contract::Color => BackendSelector { color: Some(backend), probe: None, ..self },
        }
    }

    /// The ledger and the identity of the command that a step of the
    /// detection executes: the command of the detection under way, or, when
    /// none is under way, a command that has not been executed and is
    /// registered for this detection.
    pub open spec fn probing(self, commands: Seq<Command>) -> (Seq<Command>, u64) {
        match self.probe {
            Some(key) if key < commands.len() => (commands, key),
            _ => (commands.push(Command::EnableAnsi(untried())), commands.len() as u64),
        }
    }

    /// One step of resolving the backend of a surface. A backend that is held
    /// is the answer, and nothing is asked of anyone. Where the platform has
    /// escape sequences only, that backend is chosen without a detection.
    /// Else a detection is carried through, with a command of its own that is
    /// registered in the ledger and executed there; when it finishes, the
    /// backend is chosen by what the command has recorded: escape sequences if
    /// the console supports them, the native console if not. What is chosen is
    /// held from then on.
    pub open spec fn resolve_spec(self, contract: Contract, commands: Seq<Command>, reply: Reply)
        -> (BackendSelector, Seq<Command>, Resolution) {
        match self.held(contract) {
            Some(backend) => (self, commands, Resolution::Resolved(backend)),
            None => match self.platform {
                Platform::Unix => (
                    self.holding(contract, Backend::Ansi),
                    commands,
                    Resolution::Resolved(Backend::Ansi),
                ),
                Platform::Windows => {
                    let (registered, key) = self.probing(commands);
                    let (after, action) = registered[key as int].execute_spec(reply);
                    let updated = registered.update(key as int, after);
                    match action {
                        Action::Call(request) => (
                            BackendSelector { probe: Some(key), ..self },
                            updated,
                            Resolution::Call(request),
                        ),
                        Action::Fatal(fatal) => (
                            BackendSelector { probe: None, ..self },
                            updated,
                            Resolution::Fatal(fatal),
                        ),
                        Action::Finished(_) => (
                            self.holding(
                                contract,
                                chosen_backend(self.platform, capability_of(updated, key as int)),
                            ),
                            updated,
                            Resolution::Resolved(
                                chosen_backend(self.platform, capability_of(updated, key as int)),
                            ),
                        ),
                    }
                },
            },
        }
    }

    /// Tells which backend is held for a surface, if one was chosen.
    pub fn chosen(&self, contract: Contract) -> (backend: Option<Backend>)
        ensures
            backend == self.held(contract),
    {
        match contract {
            Contract::Cursor => self.cursor,
            Contract::Terminal => self.terminal,
            Contract::Color => self.color,
        }
    }

    fn hold(&mut self, contract: Contract, backend: Backend)
        ensures
            *final(self) == old(self).holding(contract, backend),
    {
        self.probe = None;
        match contract {
            Contract::Cursor => {
                self.cursor = Some(backend);
            },
            Contract::Terminal => {
                self.terminal = Some(backend);
            },
            Contract::Color => {
                self.color = Some(backend);
            },
        }
    }

    fn probe_key(&self, context: &mut Context<Command>) -> (key: u64)
        ensures
            (final(context).commands(), key) == self.probing(old(context).commands()),
            final(context).sweeping() == old(context).sweeping(),
            key < final(context).commands().len(),
    {
        let held = match self.probe {
            Some(key) => key < context.len(),
            None => false,
        };
        if held {
            match self.probe {
                Some(key) => key,
                None => 0,
            }
        } else {
            EnableAnsiCommand::register(context)
        }
    }

    /// Takes the resolution of the backend of a surface a step further.
    pub fn resolve(
        &mut self,
        contract: Contract,
        context: &mut Context<Command>,
        reply: Reply,
    ) -> (resolution: Resolution)
        ensures
            (*final(self), final(context).commands(), resolution) == old(self).resolve_spec(
                contract,
                old(context).commands(),
                reply,
            ),
            final(context).sweeping() == old(context).sweeping(),
    {
        match self.chosen(contract) {
            Some(backend) => Resolution::Resolved(backend),
            None => match self.platform {
                Platform::Unix => {
                    self.hold(contract, Backend::Ansi);
                    Resolution::Resolved(Backend::Ansi)
                },
                Platform::Windows => {
                    let key = self.probe_key(context);
                    match context.execute(key, reply) {
                        Some(Action::Call(request)) => {
                            self.probe = Some(key);
                            Resolution::Call(request)
                        },
                        Some(Action::Fatal(fatal)) => {
                            self.probe = None;
                            Resolution::Fatal(fatal)
                        },
                        _ => {
                            let support = capability(context, key);
                            let backend = choose_backend(self.platform, &support);
                            self.hold(contract, backend);
                            Resolution::Resolved(backend)
                        },
                    }
                },
            },
        }
    }
}

/// A backend that has been chosen for a surface stays chosen: resolving again
/// gives the same backend whatever the commands of the ledger have recorded
/// since and whatever reply is handed in, asks nothing of the terminal, and
/// changes nothing.
pub proof fn lemma_resolution_is_kept(
    selector: BackendSelector,
    contract: Contract,
    backend: Backend,
    commands: Seq<Command>,
    reply: Reply,
)
    requires
        selector.held(contract) == Some(backend),
    ensures
        selector.resolve_spec(contract, commands, reply) == (
            selector,
            commands,
            Resolution::Resolved(backend),
        ),
{
}

/// On a platform with a native console, a whole resolution chooses escape
/// sequences exactly when the console lets its output mode be read and be
/// written, and the native console otherwise; the command that it has
/// executed is the last of the ledger, and the commands before it are as they
/// were. On a platform without a native console the resolution chooses
/// escape sequences at once. The ledger is one whose identities are numbers
/// of sixty-four bits.
pub proof fn lemma_resolution_follows_detection(
    contract: Contract,
    commands: Seq<Command>,
    mode: Option<u32>,
    written: bool,
)
    requires
        commands.len() <= u64::MAX,
    ensures
        ({
            let selector = BackendSelector {
                platform: Platform::Windows,
                cursor: None,
                terminal: None,
                color: None,
                probe: None,
            };
            let begun = selector.resolve_spec(contract, commands, Reply::Start);
            let read = begun.0.resolve_spec(contract, begun.1, Reply::ConsoleMode(mode));
            let last = if read.2 is Resolved {
                read
            } else {
                read.0.resolve_spec(contract, read.1, Reply::Done(written))
            };
            let backend = if mode is Some && written {
                Backend::Ansi
            } else {
                Backend::WinApi
            };
            &&& begun.2 == Resolution::Call(Request::GetConsoleMode(StdStream::Output))
            &&& last.2 == Resolution::Resolved(backend)
            &&& last.0 == selector.holding(contract, backend)
            &&& last.1.len() == commands.len() + 1
            &&& last.1.drop_last() == commands
            &&& capability_of(last.1, commands.len() as int) == recorded(mode is Some && written)
            &&& last.1.last().is_applied() == (mode is Some && written)
        }),
        ({
            let selector = BackendSelector {
                platform: Platform::Unix,
                cursor: None,
                terminal: None,
                color: None,
                probe: None,
            };
            forall|reply: Reply|
                (#[trigger] selector.resolve_spec(contract, commands, reply)) == (
                    selector.holding(contract, Backend::Ansi),
                    commands,
                    Resolution::Resolved(Backend::Ansi),
                )
        }),
{
    let selector = BackendSelector {
        platform: Platform::Windows,
        cursor: None,
        terminal: None,
        color: None,
        probe: None,
    };
    let key = commands.len() as int;
    let begun = selector.resolve_spec(contract, commands, Reply::Start);
    let first = untried().execute_spec(Reply::Start).0;
    assert(begun.1 =~= commands.push(Command::EnableAnsi(first)));
    assert(begun.0.probing(begun.1) == (begun.1, key as u64));
    let read = begun.0.resolve_spec(contract, begun.1, Reply::ConsoleMode(mode));
    let second = first.execute_spec(Reply::ConsoleMode(mode)).0;
    assert(read.1 =~= commands.push(Command::EnableAnsi(second)));
    assert(read.1.drop_last() =~= commands);
    if !(read.2 is Resolved) {
        assert(read.0.probing(read.1) == (read.1, key as u64));
        let last = read.0.resolve_spec(contract, read.1, Reply::Done(written));
        let third = second.execute_spec(Reply::Done(written)).0;
        assert(last.1 =~= commands.push(Command::EnableAnsi(third)));
        assert(last.1.drop_last() =~= commands);
    }
}

} // verus!
