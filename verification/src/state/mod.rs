//! The state of the terminal that the process has changed, and how to take
//! the changes back.
//!
//! A [`Context`] is the ledger of the reversible commands of a process. A
//! command is known by the identity it was given when it was registered, which
//! is its place in the order of registration and never changes or repeats. The
//! ledger forgets no command.

pub mod commands;

use crate::kernel::{Action, Reply};
use crate::state::commands::{Command, ICommand};
use vstd::prelude::*;

verus! {

/// No command of the sequence is applied.
pub open spec fn none_applied<C: ICommand>(commands: Seq<C>) -> bool {
    forall|i: int| 0 <= i < commands.len() ==> !(#[trigger] commands[i]).is_applied()
}

/// Undoing the applied commands below `upper`, last registered first, up to
/// the first call that has to be made: the commands as they are then, the
/// place of the command that waits for the reply to that call, and the action.
///
/// A command that is not applied is passed over. An applied command is begun
/// to be undone; if that ends at once, the command below is next. When no
/// command is left the sweep is finished, with success when no command at all
/// is applied any more. A fatal condition ends the sweep where it stands.
pub open spec fn sweep_from<C: ICommand>(commands: Seq<C>, upper: int) -> (
    Seq<C>,
    Option<int>,
    Action,
)
    decreases upper,
{
    if upper <= 0 || upper > commands.len() {
        (commands, None, Action::Finished(none_applied(commands)))
    } else if !commands[upper - 1].is_applied() {
        sweep_from(commands, upper - 1)
    } else {
        let (after, action) = commands[upper - 1].undo_spec(Reply::Start);
        let updated = commands.update(upper - 1, after);
        match action {
            Action::Call(_) => (updated, Some(upper - 1), action),
            Action::Fatal(_) => (updated, None, action),
            Action::Finished(_) => sweep_from(updated, upper - 1),
        }
    }
}

/// One step of undoing every applied command. While no sweep is under way,
/// [`Reply::Start`] begins one above the last command, and any other reply is
/// refused. While a command waits for a reply, the reply is handed to its
/// `undo`; when that ends, the sweep goes on below that command, whether or not
/// the undo succeeded. A place that holds no command ends the sweep.
pub open spec fn undo_all_spec<C: ICommand>(
    commands: Seq<C>,
    sweeping: Option<int>,
    reply: Reply,
) -> (Seq<C>, Option<int>, Action) {
    match sweeping {
        None => match reply {
            Reply::Start => sweep_from(commands, commands.len() as int),
            _ => (commands, None, Action::Finished(false)),
        },
        Some(at) => if 0 <= at < commands.len() {
            let (after, action) = commands[at].undo_spec(reply);
            let updated = commands.update(at, after);
            match action {
                Action::Call(_) => (updated, Some(at), action),
                Action::Fatal(_) => (updated, None, action),
                Action::Finished(_) => sweep_from(updated, at),
            }
        } else {
            (commands, None, Action::Finished(false))
        },
    }
}

/// The ledger of reversible commands.
pub struct Context<C: ICommand> {
    commands: Vec<C>,
    sweep: Option<usize>,
}

impl<C: ICommand> Context<C> {
    /// The registered commands, in the order of their registration. The
    /// identity of a command is its index here.
    pub closed spec fn commands(&self) -> Seq<C> {
        self.commands@
    }

    /// The place of the command that `undo_all` is waiting on, if any.
    pub closed spec fn sweeping(&self) -> Option<int> {
        match self.sweep {
            Some(at) => Some(at as int),
            None => None,
        }
    }

    /// The ledger is in order: the command that `undo_all` is waiting on,
    /// if there is one, is a command of the ledger. A new ledger is in order,
    /// and every operation leaves a ledger in order that was so before.
    pub open spec fn well_formed(&self) -> bool {
        self.sweeping() matches Some(at) ==> 0 <= at < self.commands().len()
    }

    /// An empty ledger.
    pub fn new() -> (context: Context<C>)
        ensures
            context.commands() == Seq::<C>::empty(),
            context.sweeping() is None,
            context.well_formed(),
    {
        Context { commands: Vec::new(), sweep: None }
    }

    /// The number of commands registered so far, which is the identity that
    /// the next one will get.
    pub fn len(&self) -> (count: u64)
        ensures
            count == self.commands().len(),
    {
        self.commands.len() as u64
    }

    /// The identity of the command that `undo_all` is waiting on, if any.
    pub fn undoing(&self) -> (key: Option<u64>)
        ensures
            key == match self.sweeping() {
                Some(at) => Some(at as u64),
                None => None,
            },
    {
        match self.sweep {
            Some(at) => Some(at as u64),
            None => None,
        }
    }

    /// The command with this identity; `None` for an identity that was never
    /// given out.
    pub fn get(&self, key: u64) -> (command: Option<&C>)
        ensures
            match command {
                Some(found) => key < self.commands().len() && *found == self.commands()[key as int],
                None => key >= self.commands().len(),
            },
    {
        if key < self.commands.len() as u64 {
            Some(&self.commands[key as usize])
        } else {
            None
        }
    }

    /// Adds a command and returns its identity. The commands registered
    /// before keep theirs.
    pub fn register(&mut self, command: C) -> (key: u64)
        ensures
            key == old(self).commands().len(),
            final(self).commands() == old(self).commands().push(command),
            final(self).sweeping() == old(self).sweeping(),
            old(self).well_formed() ==> final(self).well_formed(),
    {
        let key = self.commands.len() as u64;
        self.commands.push(command);
        key
    }

    /// Tells whether the command with this identity is applied; `None` for an
    /// identity that was never given out.
    pub fn applied(&self, key: u64) -> (applied: Option<bool>)
        ensures
            applied == if key < self.commands().len() {
                Some(self.commands()[key as int].is_applied())
            } else {
                None
            },
    {
        if key < self.commands.len() as u64 {
            Some(self.commands[key as usize].applied())
        } else {
            None
        }
    }

    /// Takes the execution of one command a step further. An identity that
    /// was never given out changes nothing and gives `None`.
    pub fn execute(&mut self, key: u64, reply: Reply) -> (action: Option<Action>)
        ensures
            final(self).sweeping() == old(self).sweeping(),
            key >= old(self).commands().len() ==> action is None && final(self).commands() == old(
                self,
            ).commands(),
            key < old(self).commands().len() ==> {
                let (after, answer) = old(self).commands()[key as int].execute_spec(reply);
                &&& action == Some(answer)
                &&& final(self).commands() == old(self).commands().update(key as int, after)
            },
            old(self).well_formed() ==> final(self).well_formed(),
    {
        if key < self.commands.len() as u64 {
            let action = self.commands[key as usize].execute(reply);
            Some(action)
        } else {
            None
        }
    }

    /// Takes the undoing of one command a step further. An identity that was
    /// never given out changes nothing and gives `None`.
    pub fn undo(&mut self, key: u64, reply: Reply) -> (action: Option<Action>)
        ensures
            final(self).sweeping() == old(self).sweeping(),
            key >= old(self).commands().len() ==> action is None && final(self).commands() == old(
                self,
            ).commands(),
            key < old(self).commands().len() ==> {
                let (after, answer) = old(self).commands()[key as int].undo_spec(reply);
                &&& action == Some(answer)
                &&& final(self).commands() == old(self).commands().update(key as int, after)
            },
            old(self).well_formed() ==> final(self).well_formed(),
    {
        if key < self.commands.len() as u64 {
            let action = self.commands[key as usize].undo(reply);
            Some(action)
        } else {
            None
        }
    }

    /// Tells whether no command is applied.
    pub fn all_undone(&self) -> (clean: bool)
        ensures
            clean == none_applied(self.commands()),
    {
        let mut i: usize = 0;
        while i < self.commands.len()
            invariant
                i <= self.commands.len(),
                forall|j: int| 0 <= j < i ==> !(#[trigger] self.commands@[j]).is_applied(),
            decreases self.commands.len() - i,
        {
            if self.commands[i].applied() {
                return false;
            }
            i += 1;
        }
        true
    }

    fn sweep(&mut self, upper: usize) -> (action: Action)
        requires
            upper <= old(self).commands().len(),
        ensures
            (final(self).commands(), final(self).sweeping(), action) == sweep_from(
                old(self).commands(),
                upper as int,
            ),
    {
        let mut at: usize = upper;
        while at > 0
            invariant
                at <= self.commands.len(),
                sweep_from(self.commands@, at as int) == sweep_from(
                    old(self).commands@,
                    upper as int,
                ),
            decreases at,
        {
            at -= 1;
            if self.commands[at].applied() {
                let action = self.commands[at].undo(Reply::Start);
                match action {
                    Action::Call(_) => {
                        self.sweep = Some(at);
                        return action;
                    },
                    Action::Fatal(_) => {
                        self.sweep = None;
                        return action;
                    },
                    Action::Finished(_) => {},
                }
            }
        }
        self.sweep = None;
        Action::Finished(self.all_undone())
    }

    /// Takes the undoing of every applied command a step further. The
    /// commands are undone one after the other, the last registered first.
    pub fn undo_all(&mut self, reply: Reply) -> (action: Action)
        ensures
            (final(self).commands(), final(self).sweeping(), action) == undo_all_spec(
                old(self).commands(),
                old(self).sweeping(),
                reply,
            ),
            final(self).commands().len() == old(self).commands().len(),
            final(self).well_formed(),
    {
        proof {
            lemma_sweep_is_last_first(old(self).commands(), old(self).commands().len() as int);
            match old(self).sweeping() {
                Some(at) => {
                    if 0 <= at < old(self).commands().len() {
                        let after = old(self).commands()[at].undo_spec(reply).0;
                        lemma_sweep_is_last_first(old(self).commands().update(at, after), at);
                    }
                },
                None => {},
            }
        }
        match self.sweep {
            None => match reply {
                Reply::Start => {
                    let upper = self.commands.len();
                    self.sweep(upper)
                },
                _ => Action::Finished(false),
            },
            Some(at) => {
                if at < self.commands.len() {
                    let action = self.commands[at].undo(reply);
                    match action {
                        Action::Call(_) => action,
                        Action::Fatal(_) => {
                            self.sweep = None;
                            action
                        },
                        Action::Finished(_) => self.sweep(at),
                    }
                } else {
                    self.sweep = None;
                    Action::Finished(false)
                }
            },
        }
    }
}

/// The order of a sweep. The command that a sweep stops at is applied and
/// stands below `upper`; every command between it and `upper` was either not
/// applied or had its undo end at once; and no command at or above `upper` is
/// touched. A command below `upper` that the sweep has changed was applied, and
/// is now as the beginning of its undo left it.
pub proof fn lemma_sweep_is_last_first<C: ICommand>(commands: Seq<C>, upper: int)
    requires
        0 <= upper <= commands.len(),
    ensures
        ({
            let (after, at, action) = sweep_from(commands, upper);
            &&& after.len() == commands.len()
            &&& forall|j: int| upper <= j < commands.len() ==> after[j] == commands[j]
            &&& at matches Some(i) ==> {
                &&& 0 <= i < upper
                &&& commands[i].is_applied()
                &&& action is Call
                &&& (after[i], action) == commands[i].undo_spec(Reply::Start)
                &&& forall|j: int|
                    i < j < upper ==> !(#[trigger] commands[j]).is_applied()
                        || commands[j].undo_spec(Reply::Start).1 is Finished
            }
            &&& at is None ==> !(action is Call)
            &&& forall|j: int|
                0 <= j < upper && after[j] != commands[j] ==> (#[trigger] commands[j]).is_applied()
                    && after[j] == commands[j].undo_spec(Reply::Start).0
        }),
    decreases upper,
{
    if upper <= 0 {
    } else if !commands[upper - 1].is_applied() {
        lemma_sweep_is_last_first(commands, upper - 1);
    } else {
        let (changed, action) = commands[upper - 1].undo_spec(Reply::Start);
        let updated = commands.update(upper - 1, changed);
        match action {
            Action::Finished(_) => {
                lemma_sweep_is_last_first(updated, upper - 1);
                let (after, at, last) = sweep_from(updated, upper - 1);
                assert forall|j: int| 0 <= j < upper - 1 implies updated[j] == commands[j] by {}
                assert(after[upper - 1] == updated[upper - 1]);
            },
            _ => {},
        }
    }
}

/// Three applied commands, registered as the first, the second and the third,
/// each of which answers the beginning of its undo with a call and the reply
/// to that call by finishing: undoing all of them makes the call of the third,
/// then that of the second, then that of the first, and then finishes.
pub proof fn lemma_undo_all_three<C: ICommand>(
    first: C,
    second: C,
    third: C,
    reply_third: Reply,
    reply_second: Reply,
    reply_first: Reply,
)
    requires
        first.is_applied(),
        second.is_applied(),
        third.is_applied(),
        first.undo_spec(Reply::Start).1 is Call,
        second.undo_spec(Reply::Start).1 is Call,
        third.undo_spec(Reply::Start).1 is Call,
        third.undo_spec(Reply::Start).0.undo_spec(reply_third).1 is Finished,
        second.undo_spec(Reply::Start).0.undo_spec(reply_second).1 is Finished,
        first.undo_spec(Reply::Start).0.undo_spec(reply_first).1 is Finished,
    ensures
        ({
            let begun = undo_all_spec(seq![first, second, third], None, Reply::Start);
            let third_done = undo_all_spec(begun.0, begun.1, reply_third);
            let second_done = undo_all_spec(third_done.0, third_done.1, reply_second);
            let first_done = undo_all_spec(second_done.0, second_done.1, reply_first);
            &&& begun.1 == Some(2int)
            &&& begun.2 == third.undo_spec(Reply::Start).1
            &&& third_done.1 == Some(1int)
            &&& third_done.2 == second.undo_spec(Reply::Start).1
            &&& second_done.1 == Some(0int)
            &&& second_done.2 == first.undo_spec(Reply::Start).1
            &&& first_done.1 is None
            &&& first_done.2 is Finished
            &&& first_done.0 == seq![
                first.undo_spec(Reply::Start).0.undo_spec(reply_first).0,
                second.undo_spec(Reply::Start).0.undo_spec(reply_second).0,
                third.undo_spec(Reply::Start).0.undo_spec(reply_third).0,
            ]
            &&& first_done.2 == Action::Finished(none_applied(first_done.0))
        }),
{
    let commands = seq![first, second, third];
    let third_begun = third.undo_spec(Reply::Start).0;
    let second_begun = second.undo_spec(Reply::Start).0;
    let first_begun = first.undo_spec(Reply::Start).0;
    let begun = undo_all_spec(commands, None, Reply::Start);
    reveal_with_fuel(sweep_from, 4);
    assert(begun.0 =~= seq![first, second, third_begun]);
    let third_done = undo_all_spec(begun.0, begun.1, reply_third);
    let third_over = third_begun.undo_spec(reply_third).0;
    assert(begun.0.update(2, third_over) =~= seq![first, second, third_over]);
    assert(third_done.0 =~= seq![first, second_begun, third_over]);
    let second_done = undo_all_spec(third_done.0, third_done.1, reply_second);
    let second_over = second_begun.undo_spec(reply_second).0;
    assert(third_done.0.update(1, second_over) =~= seq![first, second_over, third_over]);
    assert(second_done.0 =~= seq![first_begun, second_over, third_over]);
    let first_over = first_begun.undo_spec(reply_first).0;
    assert(second_done.0.update(0, first_over) =~= seq![first_over, second_over, third_over]);
}

/// Undoing all of three applied commands of the library, registered as the
/// first, the second and the third, on a terminal that carries out what it is
/// asked: the third is undone first, then the second, then the first, each by
/// the call with which it undoes itself, and in the end no command is applied.
pub proof fn lemma_undo_all_is_last_registered_first(
    first: Command,
    second: Command,
    third: Command,
)
    requires
        first.is_settled(),
        second.is_settled(),
        third.is_settled(),
    ensures
        ({
            let begun = undo_all_spec(seq![first, second, third], None, Reply::Start);
            let third_done = undo_all_spec(begun.0, begun.1, Reply::Done(true));
            let second_done = undo_all_spec(third_done.0, third_done.1, Reply::Done(true));
            let first_done = undo_all_spec(second_done.0, second_done.1, Reply::Done(true));
            &&& begun.1 == Some(2int)
            &&& begun.2 is Call
            &&& begun.2 == third.undo_spec(Reply::Start).1
            &&& third_done.1 == Some(1int)
            &&& third_done.2 is Call
            &&& third_done.2 == second.undo_spec(Reply::Start).1
            &&& second_done.1 == Some(0int)
            &&& second_done.2 is Call
            &&& second_done.2 == first.undo_spec(Reply::Start).1
            &&& first_done.1 is None
            &&& first_done.2 == Action::Finished(true)
            &&& first_done.0.len() == 3
            &&& none_applied(first_done.0)
        }),
{
    lemma_undo_all_three(
        first,
        second,
        third,
        Reply::Done(true),
        Reply::Done(true),
        Reply::Done(true),
    );
    let third_over = third.undo_spec(Reply::Start).0.undo_spec(Reply::Done(true)).0;
    let second_over = second.undo_spec(Reply::Start).0.undo_spec(Reply::Done(true)).0;
    let first_over = first.undo_spec(Reply::Start).0.undo_spec(Reply::Done(true)).0;
    let begun = undo_all_spec(seq![first, second, third], None, Reply::Start);
    let third_done = undo_all_spec(begun.0, begun.1, Reply::Done(true));
    let second_done = undo_all_spec(third_done.0, third_done.1, Reply::Done(true));
    let first_done = undo_all_spec(second_done.0, second_done.1, Reply::Done(true));
    assert(first_done.0 =~= seq![first_over, second_over, third_over]);
    assert(!first_over.is_applied());
    assert(!second_over.is_applied());
    assert(!third_over.is_applied());
}

} // verus!
