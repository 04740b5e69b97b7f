//! The commands of the bot and how a message is read as one.

use vstd::prelude::*;
use vstd::string::StringExecFns;
use crate::text::{chars_of, string_from, string_of};

verus! {

/// The six commands, without their arguments.
#[derive(Clone, Copy, Debug, PartialEq, Eq, Structural)]
pub enum Kind {
    Help,
    Start,
    Add,
    Remove,
    List,
    New,
}

/// A command as the user typed it.
#[derive(Clone, Debug, PartialEq, Eq)]
pub enum Command {
    Help,
    Start,
    Add { rattle_id: String },
    Remove { rattle_id: String },
    List,
    New,
}

/// Why a message is no command.
#[derive(Clone, Debug, PartialEq, Eq)]
pub enum ParseError {
    /// The command takes more arguments than the message holds.
    TooFewArguments { command: Kind, expected: usize, found: usize },
    /// The message holds more arguments than the command takes.
    TooManyArguments { command: Kind, expected: usize, found: usize },
    /// The first word is none of the six triggers.
    UnknownCommand(String),
    /// The command is addressed to another bot.
    WrongBotName(String),
}

/// A command as contracts speak of it.
pub ghost enum CommandView {
    Help,
    Start,
    Add { rattle_id: Seq<char> },
    Remove { rattle_id: Seq<char> },
    List,
    New,
}

/// A parse failure as contracts speak of it.
pub ghost enum ParseErrorView {
    TooFewArguments { command: Kind, expected: usize, found: usize },
    TooManyArguments { command: Kind, expected: usize, found: usize },
    UnknownCommand(Seq<char>),
    WrongBotName(Seq<char>),
}

impl View for Command {
    type V = CommandView;

    open spec fn view(&self) -> CommandView {
        match self {
            Command::Help => CommandView::Help,
            Command::Start => CommandView::Start,
            Command::Add { rattle_id } => CommandView::Add { rattle_id: rattle_id@ },
            Command::Remove { rattle_id } => CommandView::Remove { rattle_id: rattle_id@ },
            Command::List => CommandView::List,
            Command::New => CommandView::New,
        }
    }
}

impl View for ParseError {
    type V = ParseErrorView;

    open spec fn view(&self) -> ParseErrorView {
        match self {
            ParseError::TooFewArguments { command, expected, found } => {
                ParseErrorView::TooFewArguments {
                    command: *command,
                    expected: *expected,
                    found: *found,
                }
            },
            ParseError::TooManyArguments { command, expected, found } => {
                ParseErrorView::TooManyArguments {
                    command: *command,
                    expected: *expected,
                    found: *found,
                }
            },
            ParseError::UnknownCommand(name) => ParseErrorView::UnknownCommand(name@),
            ParseError::WrongBotName(name) => ParseErrorView::WrongBotName(name@),
        }
    }
}

impl Kind {
    /// The text that triggers the command.
    pub open spec fn trigger(self) -> Seq<char> {
        match self {
            Kind::Help => "/help"@,
            Kind::Start => "/start"@,
            Kind::Add => "/add"@,
            Kind::Remove => "/remove"@,
            Kind::List => "/list"@,
            Kind::New => "/new"@,
        }
    }

    /// What the command is declared to do.
    pub open spec fn purpose(self) -> Seq<char> {
        match self {
            Kind::Help => "display this text."@,
            Kind::Start => "Starting bot use"@,
            Kind::Add => "Adding existing ID."@,
            Kind::Remove => "Removing ID."@,
            Kind::List => "List of all your connected IDs."@,
            Kind::New => "Adding new ID."@,
        }
    }

    /// The command's line in the help text: trigger, a dash, purpose.
    pub open spec fn line(self) -> Seq<char> {
        self.trigger() + " - "@ + self.purpose() + "\n"@
    }

    /// The text that triggers the command.
    pub fn name(self) -> (out: &'static str)
        ensures
            out@ == self.trigger(),
    {
        match self {
            Kind::Help => "/help",
            Kind::Start => "/start",
            Kind::Add => "/add",
            Kind::Remove => "/remove",
            Kind::List => "/list",
            Kind::New => "/new",
        }
    }

    /// What the command is declared to do.
    pub fn description(self) -> (out: &'static str)
        ensures
            out@ == self.purpose(),
    {
        match self {
            Kind::Help => "display this text.",
            Kind::Start => "Starting bot use",
            Kind::Add => "Adding existing ID.",
            Kind::Remove => "Removing ID.",
            Kind::List => "List of all your connected IDs.",
            Kind::New => "Adding new ID.",
        }
    }

    /// The command's line in the help text.
    pub fn usage(self) -> (out: String)
        ensures
            out@ == self.line(),
    {
        let mut out = String::from_str(self.name());
        out.append(" - ");
        out.append(self.description());
        out.append("\n");
        out
    }
}

impl CommandView {
    /// Which of the six commands this is.
    pub open spec fn kind(self) -> Kind {
        match self {
            CommandView::Help => Kind::Help,
            CommandView::Start => Kind::Start,
            CommandView::Add { .. } => Kind::Add,
            CommandView::Remove { .. } => Kind::Remove,
            CommandView::List => Kind::List,
            CommandView::New => Kind::New,
        }
    }
}

impl Command {
    /// Which of the six commands this is.
    pub fn kind(&self) -> (out: Kind)
        ensures
            out == self@.kind(),
    {
        match self {
            Command::Help => Kind::Help,
            Command::Start => Kind::Start,
            Command::Add { .. } => Kind::Add,
            Command::Remove { .. } => Kind::Remove,
            Command::List => Kind::List,
            Command::New => Kind::New,
        }
    }

    /// The help text: a heading, then one line for each command.
    pub fn descriptions() -> (out: String)
        ensures
            out@ == help_text(),
    {
        let mut out = String::from_str("These commands are supported:");
        out.append("\n");
        out.append(Kind::Help.usage().as_str());
        out.append(Kind::Start.usage().as_str());
        out.append(Kind::Add.usage().as_str());
        out.append(Kind::Remove.usage().as_str());
        out.append(Kind::List.usage().as_str());
        out.append(Kind::New.usage().as_str());
        out
    }
}

/// The help text: a heading, then the line of each command in the order of
/// declaration.
pub open spec fn help_text() -> Seq<char> {
    "These commands are supported:"@ + "\n"@ + Kind::Help.line() + Kind::Start.line()
        + Kind::Add.line() + Kind::Remove.line() + Kind::List.line() + Kind::New.line()
}


/// Whether `c` separates words: a space, a tab, a line feed or a carriage
/// return.
pub open spec fn is_blank(c: char) -> bool {
    c == ' ' || c == '\t' || c == '\n' || c == '\r'
}

/// What a scan looks for.
#[derive(Clone, Copy, Debug, PartialEq, Eq, Structural)]
pub enum Mark {
    /// A character that separates words.
    Blank,
    /// A character of a word.
    Word,
    /// The sign that sets a bot's name off from the command.
    At,
}

impl Mark {
    /// Whether `c` is what the scan looks for.
    pub open spec fn hits(self, c: char) -> bool {
        match self {
            Mark::Blank => is_blank(c),
            Mark::Word => !is_blank(c),
            Mark::At => c == '@',
        }
    }

    /// Whether `c` is what the scan looks for.
    pub fn matches(self, c: char) -> (out: bool)
        ensures
            out == self.hits(c),
    {
        let blank = c == ' ' || c == '\t' || c == '\n' || c == '\r';
        match self {
            Mark::Blank => blank,
            Mark::Word => !blank,
            Mark::At => c == '@',
        }
    }
}

/// The first position at or after `from` that holds what `mark` looks for,
/// or the length of `s` where none does.
pub open spec fn scan(s: Seq<char>, from: int, mark: Mark) -> int
    decreases s.len() - from,
{
    if from < 0 || from >= s.len() {
        s.len() as int
    } else if mark.hits(s[from]) {
        from
    } else {
        scan(s, from + 1, mark)
    }
}

/// A scan stops between its start and the end, passes over nothing it looks
/// for, and stops on what it looks for unless it reaches the end.
pub proof fn lemma_scan(s: Seq<char>, from: int, mark: Mark)
    requires
        0 <= from <= s.len(),
    ensures
        from <= scan(s, from, mark) <= s.len(),
        forall|i: int| from <= i < scan(s, from, mark) ==> !mark.hits(#[trigger] s[i]),
        scan(s, from, mark) < s.len() ==> mark.hits(s[scan(s, from, mark)]),
    decreases s.len() - from,
{
    if from < s.len() && !mark.hits(s[from]) {
        lemma_scan(s, from + 1, mark);
    }
}

/// Whether two characters are the same but for the case of an ASCII letter.
pub open spec fn same_letter(a: char, b: char) -> bool {
    a == b || ('A' <= a <= 'Z' && b as u32 == a as u32 + 32) || ('A' <= b <= 'Z' && a as u32
        == b as u32 + 32)
}

/// Whether two texts are the same but for the case of their ASCII letters.
pub open spec fn same_name(a: Seq<char>, b: Seq<char>) -> bool {
    a.len() == b.len() && forall|i: int| 0 <= i < a.len() ==> same_letter(#[trigger] a[i], b[i])
}

/// The first word of a message: what stands before the first blank.
pub open spec fn head_of(text: Seq<char>) -> Seq<char> {
    text.subrange(0, scan(text, 0, Mark::Blank))
}

/// What follows the first word of a message.
pub open spec fn rest_of(text: Seq<char>) -> Seq<char> {
    text.subrange(scan(text, 0, Mark::Blank), text.len() as int)
}

/// The trigger in a first word: what stands before the first `@`.
pub open spec fn trigger_of(head: Seq<char>) -> Seq<char> {
    head.subrange(0, scan(head, 0, Mark::At))
}

/// The bot that a first word addresses: what stands between its first `@`
/// and its second, or its end. `None` where the word holds no `@`.
pub open spec fn mention_of(head: Seq<char>) -> Option<Seq<char>> {
    let at = scan(head, 0, Mark::At);
    if at < head.len() {
        Some(head.subrange(at + 1, scan(head, at + 1, Mark::At)))
    } else {
        None
    }
}

/// The arguments of a command, as far as they matter.
pub ghost enum Arguments {
    /// No word.
    Zero,
    /// Exactly one word.
    One(Seq<char>),
    /// Two words or more.
    Many,
}

/// The words that `rest` holds, told apart by their number.
pub open spec fn arguments_of(rest: Seq<char>) -> Arguments {
    let start = scan(rest, 0, Mark::Word);
    let end = scan(rest, start, Mark::Blank);
    if start >= rest.len() {
        Arguments::Zero
    } else if scan(rest, end, Mark::Word) >= rest.len() {
        Arguments::One(rest.subrange(start, end))
    } else {
        Arguments::Many
    }
}

/// The command with the given trigger, if there is one.
pub open spec fn kind_of(trigger: Seq<char>) -> Option<Kind> {
    if trigger == Kind::Help.trigger() {
        Some(Kind::Help)
    } else if trigger == Kind::Start.trigger() {
        Some(Kind::Start)
    } else if trigger == Kind::Add.trigger() {
        Some(Kind::Add)
    } else if trigger == Kind::Remove.trigger() {
        Some(Kind::Remove)
    } else if trigger == Kind::List.trigger() {
        Some(Kind::List)
    } else if trigger == Kind::New.trigger() {
        Some(Kind::New)
    } else {
        None
    }
}

/// The command of the given kind with the given arguments. A command that
/// takes none ignores what follows it; one that takes an argument wants
/// exactly one word.
pub open spec fn build(kind: Kind, arguments: Arguments) -> Result<CommandView, ParseErrorView> {
    match kind {
        Kind::Help => Ok(CommandView::Help),
        Kind::Start => Ok(CommandView::Start),
        Kind::List => Ok(CommandView::List),
        Kind::New => Ok(CommandView::New),
        Kind::Add | Kind::Remove => match arguments {
            Arguments::Zero => Err(
                ParseErrorView::TooFewArguments { command: kind, expected: 1, found: 0 },
            ),
            Arguments::Many => Err(
                ParseErrorView::TooManyArguments { command: kind, expected: 1, found: 2 },
            ),
            Arguments::One(word) => if kind == Kind::Add {
                Ok(CommandView::Add { rattle_id: word })
            } else {
                Ok(CommandView::Remove { rattle_id: word })
            },
        },
    }
}

/// How a message reads as a command sent to the bot called `bot_name`.
///
/// The first word is the trigger, with or without `@` and a bot's name
/// behind it. A name that is not this bot's, compared without regard to the
/// case of ASCII letters, makes the message another bot's. A first word that
/// is no trigger makes the message no command.
pub open spec fn parse_spec(text: Seq<char>, bot_name: Seq<char>) -> Result<
    CommandView,
    ParseErrorView,
> {
    let head = head_of(text);
    let trigger = trigger_of(head);
    match mention_of(head) {
        Some(name) if !same_name(name, bot_name) => Err(ParseErrorView::WrongBotName(name)),
        _ => match kind_of(trigger) {
            None => Err(ParseErrorView::UnknownCommand(trigger)),
            Some(kind) => build(kind, arguments_of(rest_of(text))),
        },
    }
}

/// The first position at or after `from` that holds what `mark` looks for.
fn find(chars: &Vec<char>, from: usize, mark: Mark) -> (out: usize)
    requires
        from <= chars@.len(),
    ensures
        out == scan(chars@, from as int, mark),
        from <= out <= chars@.len(),
{
    let mut i: usize = from;
    while i < chars.len() && !mark.matches(chars[i])
        invariant
            from <= i <= chars@.len(),
            scan(chars@, from as int, mark) == scan(chars@, i as int, mark),
        decreases chars@.len() - i,
    {
        i = i + 1;
    }
    proof {
        lemma_scan(chars@, i as int, mark);
    }
    i
}

/// Whether two characters are the same but for the case of an ASCII letter.
fn letters_match(a: char, b: char) -> (out: bool)
    ensures
        out == same_letter(a, b),
{
    let x: u32 = a as u32;
    let y: u32 = b as u32;
    a == b || ('A' <= a && a <= 'Z' && y == x + 32) || ('A' <= b && b <= 'Z' && x == y + 32)
}

/// Whether two texts are the same but for the case of their ASCII letters.
fn names_match(a: &Vec<char>, b: &Vec<char>) -> (out: bool)
    ensures
        out == same_name(a@, b@),
{
    if a.len() != b.len() {
        return false;
    }
    let mut i: usize = 0;
    while i < a.len()
        invariant
            a@.len() == b@.len(),
            i <= a@.len(),
            forall|j: int| 0 <= j < i ==> same_letter(#[trigger] a@[j], b@[j]),
        decreases a@.len() - i,
    {
        if !letters_match(a[i], b[i]) {
            return false;
        }
        i = i + 1;
    }
    true
}

/// Whether `chars` spells `word`.
fn spells(chars: &Vec<char>, word: &str) -> (out: bool)
    ensures
        out == (chars@ == word@),
{
    let other = chars_of(word);
    if chars.len() != other.len() {
        return false;
    }
    let mut i: usize = 0;
    while i < chars.len()
        invariant
            other@ == word@,
            chars@.len() == other@.len(),
            i <= chars@.len(),
            forall|j: int| 0 <= j < i ==> chars@[j] == other@[j],
        decreases chars@.len() - i,
    {
        if chars[i] != other[i] {
            proof {
                assert(chars@[i as int] != other@[i as int]);
            }
            return false;
        }
        i = i + 1;
    }
    proof {
        assert(chars@ =~= other@);
    }
    true
}

/// The part of `chars` between `from` and `to`.
fn slice(chars: &Vec<char>, from: usize, to: usize) -> (out: Vec<char>)
    requires
        from <= to <= chars@.len(),
    ensures
        out@ == chars@.subrange(from as int, to as int),
{
    let mut out: Vec<char> = Vec::new();
    let mut i: usize = from;
    while i < to
        invariant
            from <= i <= to <= chars@.len(),
            out@ == chars@.subrange(from as int, i as int),
        decreases to - i,
    {
        out.push(chars[i]);
        i = i + 1;
        proof {
            assert(out@ =~= chars@.subrange(from as int, i as int));
        }
    }
    out
}

/// The command with the given trigger, if there is one.
fn kind_named(trigger: &Vec<char>) -> (out: Option<Kind>)
    ensures
        out == kind_of(trigger@),
{
    if spells(trigger, Kind::Help.name()) {
        Some(Kind::Help)
    } else if spells(trigger, Kind::Start.name()) {
        Some(Kind::Start)
    } else if spells(trigger, Kind::Add.name()) {
        Some(Kind::Add)
    } else if spells(trigger, Kind::Remove.name()) {
        Some(Kind::Remove)
    } else if spells(trigger, Kind::List.name()) {
        Some(Kind::List)
    } else if spells(trigger, Kind::New.name()) {
        Some(Kind::New)
    } else {
        None
    }
}

/// The command of the given kind, with its argument taken from `rest`.
fn with_arguments(kind: Kind, rest: &Vec<char>) -> (out: Result<Command, ParseError>)
    ensures
        out is Ok == build(kind, arguments_of(rest@)) is Ok,
        out is Ok ==> out->Ok_0@ == build(kind, arguments_of(rest@))->Ok_0,
        out is Err ==> out->Err_0@ == build(kind, arguments_of(rest@))->Err_0,
{
    match kind {
        Kind::Help => Ok(Command::Help),
        Kind::Start => Ok(Command::Start),
        Kind::List => Ok(Command::List),
        Kind::New => Ok(Command::New),
        Kind::Add | Kind::Remove => {
            let start = find(rest, 0, Mark::Word);
            let end = find(rest, start, Mark::Blank);
            if start >= rest.len() {
                Err(ParseError::TooFewArguments { command: kind, expected: 1, found: 0 })
            } else if find(rest, end, Mark::Word) >= rest.len() {
                let word = string_of(rest, start, end);
                match kind {
                    Kind::Add => Ok(Command::Add { rattle_id: word }),
                    _ => Ok(Command::Remove { rattle_id: word }),
                }
            } else {
                Err(ParseError::TooManyArguments { command: kind, expected: 1, found: 2 })
            }
        },
    }
}

impl Command {
    /// Reads a message as a command sent to the bot called `bot_name`.
    pub fn parse(text: &str, bot_name: &str) -> (out: Result<Command, ParseError>)
        ensures
            out is Ok == parse_spec(text@, bot_name@) is Ok,
            out is Ok ==> out->Ok_0@ == parse_spec(text@, bot_name@)->Ok_0,
            out is Err ==> out->Err_0@ == parse_spec(text@, bot_name@)->Err_0,
    {
        let chars = chars_of(text);
        let head_end = find(&chars, 0, Mark::Blank);
        let head = slice(&chars, 0, head_end);
        let rest = slice(&chars, head_end, chars.len());
        let at = find(&head, 0, Mark::At);
        let trigger = slice(&head, 0, at);
        if at < head.len() {
            let name_end = find(&head, at + 1, Mark::At);
            let name = slice(&head, at + 1, name_end);
            let bot = chars_of(bot_name);
            if !names_match(&name, &bot) {
                return Err(ParseError::WrongBotName(string_from(&name)));
            }
        }
        match kind_named(&trigger) {
            None => {
                Err(ParseError::UnknownCommand(string_from(&trigger)))
            },
            Some(kind) => with_arguments(kind, &rest),
        }
    }
}

} // verus!
