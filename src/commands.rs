//! The dashboard's command line: the typed line is split at spaces into a
//! command and its arguments, and interpreted as an instruction.
use crate::agent::AgentMessage;
use crate::chat::strings_view;
use vstd::prelude::*;
use vstd::string::StrSliceExecFns;

verus! {

/// What the dashboard does with the captured command.
#[derive(Debug)]
pub enum UiCommand {
    /// Send this message to the agent.
    Agent(AgentMessage),
    /// Leave the dashboard.
    Exit,
    /// Not a known command; nothing happens.
    Ignored,
}

/// The pieces completed so far and the pending piece, after reading `s`
/// from left to right and cutting at each space.
pub open spec fn scan_pieces(s: Seq<char>) -> (Seq<Seq<char>>, Seq<char>)
    decreases s.len(),
{
    if s.len() == 0 {
        (Seq::empty(), Seq::empty())
    } else {
        let (done, piece) = scan_pieces(s.drop_last());
        if s.last() == ' ' {
            (done.push(piece), Seq::empty())
        } else {
            (done, piece.push(s.last()))
        }
    }
}

/// `s` cut at every space: one more piece than there are spaces, empty
/// pieces included.
pub open spec fn split_spaces(s: Seq<char>) -> Seq<Seq<char>> {
    scan_pieces(s).0.push(scan_pieces(s).1)
}

/// The arguments of a command line cut into `pieces`: the pieces after the
/// first, or a single empty argument when there are none.
pub open spec fn arguments_of(pieces: Seq<Seq<char>>) -> Seq<Seq<char>> {
    if pieces.len() <= 1 {
        seq![Seq::<char>::empty()]
    } else {
        pieces.subrange(1, pieces.len() as int)
    }
}

/// The descriptions of the known commands, a later entry for a name
/// replacing an earlier one.
pub open spec fn table_of(pairs: Seq<(String, String)>) -> Map<Seq<char>, Seq<char>>
    decreases pairs.len(),
{
    if pairs.len() == 0 {
        Map::empty()
    } else {
        table_of(pairs.drop_last()).insert(pairs.last().0@, pairs.last().1@)
    }
}

/// The built-in command descriptions.
pub open spec fn default_table() -> Map<Seq<char>, Seq<char>> {
    Map::empty().insert("sethost"@, "Set host"@).insert(
        "help"@,
        "Available commands: hello, quit, sethost"@,
    ).insert("quit"@, "Goodbye!"@).insert("poke"@, "Poke the agent"@)
}

pub struct CommandsView {
    pub table: Map<Seq<char>, Seq<char>>,
    pub command: Seq<char>,
    pub args: Seq<Seq<char>>,
}

/// Whether `r` is what the captured `command` and `args` mean.
pub open spec fn interpretation(command: Seq<char>, args: Seq<Seq<char>>, r: UiCommand) -> bool {
    if command == "sethost"@ {
        r matches UiCommand::Agent(AgentMessage::SetHost(h)) && h@ == args[0]
    } else if command == "poke"@ {
        r matches UiCommand::Agent(AgentMessage::Poke)
    } else if command == "exit"@ {
        r is Exit
    } else {
        r is Ignored
    }
}

/// The command parser's state: known commands and the last captured
/// command with its arguments.
pub struct Commands {
    commands: Vec<(String, String)>,
    current_command: String,
    current_command_args: Vec<String>,
}

impl View for Commands {
    type V = CommandsView;

    closed spec fn view(&self) -> CommandsView {
        CommandsView {
            table: table_of(self.commands@),
            command: self.current_command@,
            args: strings_view(self.current_command_args@),
        }
    }
}

impl Commands {
    /// A captured command always comes with at least one argument.
    pub open spec fn wf(&self) -> bool {
        self@.command.len() > 0 ==> self@.args.len() > 0
    }

    pub fn new() -> (r: Self)
        ensures
            r.wf(),
            r@.table == Map::<Seq<char>, Seq<char>>::empty(),
            r@.command == Seq::<char>::empty(),
            r@.args == Seq::<Seq<char>>::empty(),
    {
        let r = Commands { commands: Vec::new(), current_command: String::new(), current_command_args: Vec::new() };
        assert(r@.args =~= Seq::<Seq<char>>::empty());
        r
    }

    /// Records `description` for `command`, replacing an earlier one.
    pub fn add_command(&mut self, command: String, description: String)
        requires
            old(self).wf(),
        ensures
            final(self).wf(),
            final(self)@ == (CommandsView {
                table: old(self)@.table.insert(command@, description@),
                ..old(self)@
            }),
    {
        let ghost before = self.commands@;
        self.commands.push((command, description));
        assert(self.commands@.drop_last() =~= before);
    }

    /// The built-in commands and their descriptions.
    pub fn setup_commands(&self) -> (r: Vec<(String, String)>)
        ensures
            table_of(r@) == default_table(),
    {
        let mut r: Vec<(String, String)> = Vec::new();
        r.push((String::from_str("sethost"), String::from_str("Set host")));
        r.push((String::from_str("help"), String::from_str("Available commands: hello, quit, sethost")));
        r.push((String::from_str("quit"), String::from_str("Goodbye!")));
        r.push((String::from_str("poke"), String::from_str("Poke the agent")));
        proof {
            let s = r@;
            reveal_with_fuel(table_of, 5);
            assert(s.drop_last().drop_last().drop_last().drop_last() =~= Seq::<(String, String)>::empty());
            assert(s.drop_last().drop_last().drop_last().last() == s[0]);
            assert(s.drop_last().drop_last().last() == s[1]);
            assert(s.drop_last().last() == s[2]);
            assert(table_of(s) =~= default_table());
        }
        r
    }

    /// Cuts `input` at spaces: the first piece becomes the command, the rest
    /// its arguments. An empty line leaves the last capture in place.
    pub fn capture_command(&mut self, input: &str)
        requires
            old(self).wf(),
        ensures
            final(self).wf(),
            input@.len() == 0 ==> final(self)@ == old(self)@,
            input@.len() > 0 ==> final(self)@ == (CommandsView {
                command: split_spaces(input@)[0],
                args: arguments_of(split_spaces(input@)),
                ..old(self)@
            }),
    {
        let n = input.unicode_len();
        if n == 0 {
            return;
        }
        let mut pieces: Vec<String> = Vec::new();
        let mut start: usize = 0;
        let mut i: usize = 0;
        while i < n
            invariant
                n == input@.len(),
                start <= i <= n,
                strings_view(pieces@) == scan_pieces(input@.subrange(0, i as int)).0,
                input@.subrange(start as int, i as int) == scan_pieces(input@.subrange(0, i as int)).1,
            decreases n - i,
        {
            assert(input@.subrange(0, i + 1).drop_last() =~= input@.subrange(0, i as int));
            let c = input.get_char(i);
            if c == ' ' {
                let ghost before = pieces@;
                pieces.push(String::from_str(input.substring_char(start, i)));
                assert(strings_view(pieces@) =~= strings_view(before).push(
                    input@.subrange(start as int, i as int),
                ));
                start = i + 1;
                assert(input@.subrange(start as int, i + 1) =~= Seq::<char>::empty());
            } else {
                assert(input@.subrange(start as int, i + 1) =~= input@.subrange(
                    start as int,
                    i as int,
                ).push(c));
            }
            i = i + 1;
        }
        assert(input@.subrange(0, n as int) =~= input@);
        let ghost before = pieces@;
        pieces.push(String::from_str(input.substring_char(start, n)));
        assert(strings_view(pieces@) =~= split_spaces(input@));
        let ghost all = strings_view(pieces@);
        let command = pieces.remove(0);
        let args = if pieces.len() == 0 {
            let mut a: Vec<String> = Vec::new();
            a.push(String::new());
            assert(strings_view(a@) =~= seq![Seq::<char>::empty()]);
            a
        } else {
            assert(strings_view(pieces@) =~= all.subrange(1, all.len() as int));
            pieces
        };
        self.current_command = command;
        self.current_command_args = args;
    }

    pub fn get_current_command(&self) -> (r: &String)
        ensures
            r@ == self@.command,
    {
        &self.current_command
    }

    pub fn get_current_command_args(&self) -> (r: &Vec<String>)
        ensures
            strings_view(r@) == self@.args,
    {
        &self.current_command_args
    }

    /// Forgets the captured command.
    pub fn reset_command(&mut self)
        ensures
            final(self).wf(),
            final(self)@ == (CommandsView {
                command: Seq::empty(),
                args: Seq::empty(),
                ..old(self)@
            }),
    {
        self.current_command = String::new();
        self.current_command_args = Vec::new();
        assert(self@.args =~= Seq::<Seq<char>>::empty());
    }

    /// What the captured command asks for: `sethost <host>` and `poke` go to
    /// the agent, `exit` leaves, anything else is ignored.
    pub fn interpret(&self) -> (r: UiCommand)
        requires
            self.wf(),
        ensures
            interpretation(self@.command, self@.args, r),
    {
        if self.current_command == String::from_str("sethost") {
            proof {
                reveal_strlit("sethost");
            }
            UiCommand::Agent(AgentMessage::SetHost(self.current_command_args[0].clone()))
        } else if self.current_command == String::from_str("poke") {
            UiCommand::Agent(AgentMessage::Poke)
        } else if self.current_command == String::from_str("exit") {
            UiCommand::Exit
        } else {
            UiCommand::Ignored
        }
    }
}

} // verus!
