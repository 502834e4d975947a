//! A command to launch: the program to run and its arguments.

use vstd::prelude::*;
use vstd::slice::slice_to_vec;

verus! {

/// What a command says: the path of the program and the arguments in the
/// order in which they were added. Both are bytes as the operating system
/// takes them; nothing is checked or changed.
pub struct CommandView {
    pub program: Seq<u8>,
    pub args: Seq<Seq<u8>>,
}

impl CommandView {
    /// The command with one more argument at the end.
    pub open spec fn arg(self, value: Seq<u8>) -> CommandView {
        CommandView { program: self.program, args: self.args.push(value) }
    }

    /// The command with a batch of arguments added at the end, in order.
    pub open spec fn args(self, values: Seq<Seq<u8>>) -> CommandView {
        CommandView { program: self.program, args: self.args + values }
    }

    /// The command after adding each of `values` with `arg`, first to last.
    pub open spec fn arg_each(self, values: Seq<Seq<u8>>) -> CommandView
        decreases values.len(),
    {
        if values.len() == 0 {
            self
        } else {
            self.arg_each(values.drop_last()).arg(values.last())
        }
    }

    /// The argument vector of the launch: the program, then the arguments.
    pub open spec fn argv(self) -> Seq<Seq<u8>> {
        seq![self.program] + self.args
    }
}

/// The byte strings behind a slice of byte slices.
pub open spec fn byte_strings(values: Seq<&[u8]>) -> Seq<Seq<u8>> {
    Seq::new(values.len(), |i: int| values[i]@)
}

/// The byte strings held by a vector of byte vectors.
pub open spec fn owned_byte_strings(values: Seq<Vec<u8>>) -> Seq<Seq<u8>> {
    Seq::new(values.len(), |i: int| values[i]@)
}

/// A command to launch: a program path and its arguments.
pub struct Command {
    program: Vec<u8>,
    argv: Vec<Vec<u8>>,
}

impl View for Command {
    type V = CommandView;

    closed spec fn view(&self) -> CommandView {
        CommandView { program: self.program@, args: owned_byte_strings(self.argv@) }
    }
}

impl Command {
    /// A command for the program at the path `program`, with no arguments.
    pub fn new(program: &[u8]) -> (cmd: Command)
        ensures
            cmd@ == (CommandView { program: program@, args: Seq::empty() }),
    {
        let cmd = Command { program: slice_to_vec(program), argv: Vec::new() };
        assert(owned_byte_strings(cmd.argv@) =~= Seq::empty());
        cmd
    }

    /// Adds one argument after those already there.
    pub fn arg(&mut self, arg: &[u8]) -> (ret: &mut Self)
        ensures
            ret@ == old(self)@.arg(arg@),
            *final(self) == *final(ret),
    {
        self.argv.push(slice_to_vec(arg));
        assert(owned_byte_strings(self.argv@) =~= owned_byte_strings(old(self).argv@).push(arg@));
        self
    }

    /// Adds each of `args` in order after the arguments already there.
    pub fn args(&mut self, args: &[&[u8]]) -> (ret: &mut Self)
        ensures
            ret@ == old(self)@.args(byte_strings(args@)),
            *final(self) == *final(ret),
    {
        let mut i: usize = 0;
        while i < args.len()
            invariant
                0 <= i <= args.len(),
                self.program == old(self).program,
                owned_byte_strings(self.argv@) == owned_byte_strings(old(self).argv@)
                    + byte_strings(args@).take(i as int),
            decreases args.len() - i,
        {
            let ghost before = self.argv@;
            self.argv.push(slice_to_vec(args[i]));
            assert(owned_byte_strings(self.argv@) =~= owned_byte_strings(before).push(args@[i as int]@));
            assert(byte_strings(args@).take(i + 1) =~= byte_strings(args@).take(i as int).push(
                args@[i as int]@,
            ));
            i += 1;
        }
        assert(byte_strings(args@).take(args@.len() as int) =~= byte_strings(args@));
        self
    }

    /// The path of the program.
    pub fn program(&self) -> (r: &Vec<u8>)
        ensures
            r@ == self@.program,
    {
        &self.program
    }

    /// The arguments, in the order in which they were added.
    pub fn arguments(&self) -> (r: &Vec<Vec<u8>>)
        ensures
            owned_byte_strings(r@) == self@.args,
    {
        &self.argv
    }
}

/// Adding an empty batch changes nothing.
pub proof fn lemma_empty_batch_is_noop(cmd: CommandView)
    ensures
        cmd.args(Seq::empty()) == cmd,
{
    assert(cmd.args + Seq::<Seq<u8>>::empty() =~= cmd.args);
}

/// Adding a batch is the same as adding its items one by one.
pub proof fn lemma_batch_is_repeated_arg(cmd: CommandView, values: Seq<Seq<u8>>)
    ensures
        cmd.args(values) == cmd.arg_each(values),
    decreases values.len(),
{
    if values.len() == 0 {
        lemma_empty_batch_is_noop(cmd);
    } else {
        lemma_batch_is_repeated_arg(cmd, values.drop_last());
        assert(cmd.args + values =~= (cmd.args + values.drop_last()).push(values.last()));
    }
}

/// The argument vector is the program followed by every argument in the
/// order of the calls that added them: a batch, then a single argument, come
/// out as the batch's items and then that argument.
pub proof fn lemma_argv_keeps_order(cmd: CommandView, batch: Seq<Seq<u8>>, last: Seq<u8>)
    ensures
        cmd.args(batch).arg(last).argv() == (seq![cmd.program] + cmd.args + batch).push(last),
        cmd.args(batch).arg(last).argv().len() == 1 + cmd.args.len() + batch.len() + 1,
        cmd.args(batch).arg(last).argv()[0] == cmd.program,
{
    assert(cmd.args(batch).arg(last).argv() =~= (seq![cmd.program] + cmd.args + batch).push(last));
}

} // verus!
