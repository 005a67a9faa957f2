//! The line buffer: the in-progress command text, and after parsing, one
//! program name with its ordered arguments.

use vstd::prelude::*;

use crate::strutil::push_char;

verus! {

/// The mathematical value of a command: its text and its arguments.
#[verifier::ext_equal]
pub struct CommandModel {
    pub text: Seq<char>,
    pub args: Seq<Seq<char>>,
}

/// The command under edit. `command` holds the raw text while the line is
/// typed; after parsing, `command` is the program name and `args` its
/// arguments in order.
pub struct Command {
    command: String,
    args: Vec<String>,
}

impl Command {
    /// The command as a mathematical value.
    pub open spec fn model(&self) -> CommandModel {
        CommandModel { text: self.text(), args: self.args_view() }
    }

    /// The text as a sequence of characters.
    pub closed spec fn text(&self) -> Seq<char> {
        self.command@
    }

    /// The arguments as sequences of characters, in order.
    pub closed spec fn args_view(&self) -> Seq<Seq<char>> {
        self.args.deep_view()
    }

    /// Builds a command with the given text and no arguments.
    pub fn with_text(text: String) -> (c: Command)
        ensures
            c.text() == text@,
            c.args_view() == Seq::<Seq<char>>::empty(),
    {
        let c = Command { command: text, args: Vec::new() };
        proof {
            assert(c.args_view() =~= Seq::<Seq<char>>::empty());
        }
        c
    }

    /// The character length of the raw text.
    pub fn len(&self) -> (n: usize)
        ensures
            n == self.text().len(),
    {
        self.command.as_str().unicode_len()
    }

    /// True when no text has been typed.
    pub fn is_empty(&self) -> (b: bool)
        ensures
            b == (self.text().len() == 0),
    {
        self.command.as_str().is_empty()
    }

    /// Removes and returns the last character, if any.
    pub fn pop(&mut self) -> (r: Option<char>)
        ensures
            old(self).text().len() == 0 ==> r is None && final(self).text()
                == old(self).text(),
            old(self).text().len() > 0 ==> r == Some(old(self).text().last())
                && final(self).text() == old(self).text().drop_last(),
            final(self).args_view() == old(self).args_view(),
    {
        let n = self.command.as_str().unicode_len();
        if n == 0 {
            return None;
        }
        let c = self.command.as_str().get_char(n - 1);
        let rest = String::from_str(self.command.as_str().substring_char(0, n - 1));
        self.command = rest;
        proof {
            assert(old(self).text().drop_last() =~= old(self).text().subrange(
                0,
                n - 1,
            ));
        }
        Some(c)
    }

    /// Appends one character to the text.
    pub fn push(&mut self, c: char) -> (u: ())
        ensures
            final(self).text() == old(self).text() + seq![c],
            final(self).args_view() == old(self).args_view(),
    {
        push_char(&mut self.command, c);
    }

    /// Inserts one character at the given character offset.
    pub fn insert(&mut self, c: char, index: usize) -> (u: ())
        requires
            index <= old(self).text().len(),
        ensures
            final(self).text() == old(self).text().subrange(0, index as int) + seq![c]
                + old(self).text().skip(index as int),
            final(self).args_view() == old(self).args_view(),
    {
        let n = self.command.as_str().unicode_len();
        let mid = crate::strutil::char_to_string(c);
        let left = String::from_str(self.command.as_str().substring_char(0, index));
        let right = self.command.as_str().substring_char(index, n);
        let joined = left.concat(mid.as_str()).concat(right);
        self.command = joined;
    }

    /// Removes the character at the given character offset.
    pub fn remove(&mut self, index: usize) -> (u: ())
        requires
            index < old(self).text().len(),
        ensures
            final(self).text() == old(self).text().subrange(0, index as int)
                + old(self).text().skip(index + 1),
            final(self).args_view() == old(self).args_view(),
    {
        let n = self.command.as_str().unicode_len();
        let left = String::from_str(self.command.as_str().substring_char(0, index));
        let right = self.command.as_str().substring_char(index + 1, n);
        let joined = left.concat(right);
        self.command = joined;
    }

    /// Replaces the whole text, leaving the arguments as they are.
    pub fn set(&mut self, command: String) -> (u: ())
        ensures
            final(self).text() == command@,
            final(self).args_view() == old(self).args_view(),
    {
        self.command = command;
    }

    /// Replaces the program name; same operation as `set`.
    pub fn set_command(&mut self, command: String) -> (u: ())
        ensures
            final(self).text() == command@,
            final(self).args_view() == old(self).args_view(),
    {
        self.command = command;
    }

    /// Appends one argument.
    pub fn add_arg(&mut self, arg: String) -> (u: ())
        ensures
            final(self).args_view() == old(self).args_view().push(arg@),
            final(self).text() == old(self).text(),
    {
        let ghost before = self.args.deep_view();
        let ghost a = arg@;
        self.args.push(arg);
        proof {
            assert(self.args.deep_view() =~= before.push(a));
        }
    }

    /// The raw text, or after parsing, the program name.
    pub fn get_command(&self) -> (r: &str)
        ensures
            r@ == self.text(),
    {
        self.command.as_str()
    }

    /// The arguments, in order.
    pub fn get_args(&self) -> (r: &Vec<String>)
        ensures
            r.deep_view() == self.args_view(),
    {
        &self.args
    }

    /// Takes the command apart into its text and its arguments.
    pub fn into_parts(self) -> (r: (String, Vec<String>))
        ensures
            r.0@ == self.text(),
            r.1.deep_view() == self.args_view(),
    {
        (self.command, self.args)
    }

    /// A command with the same text and arguments.
    pub fn duplicate(&self) -> (c: Command)
        ensures
            c.text() == self.text(),
            c.args_view() == self.args_view(),
    {
        let text = self.command.clone();
        let mut args: Vec<String> = Vec::new();
        let mut i: usize = 0;
        while i < self.args.len()
            invariant
                0 <= i <= self.args.len(),
                args.deep_view() =~= self.args.deep_view().take(i as int),
            decreases self.args.len() - i,
        {
            let ghost before = args.deep_view();
            args.push(self.args[i].clone());
            proof {
                assert(args.deep_view() =~= before.push(self.args@[i as int]@));
                assert(args.deep_view() =~= self.args.deep_view().take(i + 1));
            }
            i += 1;
        }
        proof {
            assert(args.deep_view() =~= self.args.deep_view());
        }
        Command { command: text, args }
    }
}

impl Default for Command {
    /// An empty command: no text, no arguments.
    fn default() -> (c: Command)
        ensures
            c.text() == Seq::<char>::empty(),
            c.args_view() == Seq::<Seq<char>>::empty(),
    {
        let c = Command { command: String::new(), args: Vec::new() };
        proof {
            assert(c.text() =~= Seq::<char>::empty());
            assert(c.args_view() =~= Seq::<Seq<char>>::empty());
        }
        c
    }
}

} // verus!
