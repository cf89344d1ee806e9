//! Running a command line to its end: the commands of macros run in turn, and
//! the work outside the library is handed out one effect at a time.
use crate::command::dispatch::{input_post, match_input};
use crate::command::error::{CommandError, CommandErrorView};
use crate::command::macros::{expand, expand_spec};
use crate::command::reply::{Reply, answers, resume, resume_spec};
use crate::command::{CommandReturn, Effect, EffectView, Outcome, OutcomeView, Pending, PendingView, res_view};
use crate::data::context::Context;
use crate::text::views;
use vstd::prelude::*;

verus! {

/// What the runner asks of the program around it next.
#[derive(Debug)]
pub enum Step {
    /// call `step` again
    Continue,
    /// perform the effect, then hand its reply to `answer`
    Perform(Effect),
    /// the command line is done: what it returns, or its error
    Finished(Result<CommandReturn, CommandError>),
}

pub enum StepView {
    Continue,
    Perform(EffectView),
    Finished(Result<CommandReturn, CommandErrorView>),
}

impl View for Step {
    type V = StepView;

    open spec fn view(&self) -> StepView {
        match self {
            Step::Continue => StepView::Continue,
            Step::Perform(e) => StepView::Perform(e@),
            Step::Finished(Ok(r)) => StepView::Finished(Ok(*r)),
            Step::Finished(Err(e)) => StepView::Finished(Err(e@)),
        }
    }
}

/// The commands still to run, whether one of them asked for the first song
/// to be loaded again, and the command that waits for the reply to an effect.
#[derive(Debug)]
pub struct Runner {
    /// the commands still to run, the next one first
    pub queue: Vec<String>,
    /// some command returned `ReloadFirstSong`
    pub reload: bool,
    /// what the command that asked for an effect does with its reply
    pub waiting: Option<Pending>,
}

pub struct RunnerView {
    pub queue: Seq<Seq<char>>,
    pub reload: bool,
    pub waiting: Option<PendingView>,
}

impl View for Runner {
    type V = RunnerView;

    open spec fn view(&self) -> RunnerView {
        RunnerView {
            queue: views(self.queue@),
            reload: self.reload,
            waiting: match &self.waiting {
                Some(p) => Some(p@),
                None => None,
            },
        }
    }
}

/// What the command line returns once all its commands have run.
pub open spec fn final_return(reload: bool) -> CommandReturn {
    if reload {
        CommandReturn::ReloadFirstSong
    } else {
        CommandReturn::Nothing
    }
}

/// The runner after a command came to `r`, and what it asks for: an error
/// or a quit ends the line at once; a macro's commands run before the rest;
/// an effect is handed out and its command waits.
pub open spec fn advance(v: RunnerView, r: Result<OutcomeView, CommandErrorView>) -> (RunnerView, StepView) {
    match r {
        Err(e) => (RunnerView { queue: Seq::empty(), ..v }, StepView::Finished(Err(e))),
        Ok(OutcomeView::Return(CommandReturn::Quit)) => (
            RunnerView { queue: Seq::empty(), ..v },
            StepView::Finished(Ok(CommandReturn::Quit)),
        ),
        Ok(OutcomeView::Return(CommandReturn::QuitNoSave)) => (
            RunnerView { queue: Seq::empty(), ..v },
            StepView::Finished(Ok(CommandReturn::QuitNoSave)),
        ),
        Ok(OutcomeView::Return(CommandReturn::ReloadFirstSong)) => (
            RunnerView { reload: true, ..v },
            StepView::Continue,
        ),
        Ok(OutcomeView::Return(CommandReturn::Nothing)) => (v, StepView::Continue),
        Ok(OutcomeView::Expand(cmds)) => (RunnerView { queue: cmds + v.queue, ..v }, StepView::Continue),
        Ok(OutcomeView::Request(e, p)) => (RunnerView { waiting: Some(p), ..v }, StepView::Perform(e)),
    }
}

impl Runner {
    /// A runner for the command line `line`.
    pub fn new(line: String) -> (r: Runner)
        ensures
            r@.queue == seq![line@],
            !r@.reload,
            r@.waiting is None,
    {
        let mut queue: Vec<String> = Vec::new();
        queue.push(line);
        assert(views(queue@) =~= seq![line@]);
        Runner { queue, reload: false, waiting: None }
    }

    /// A runner for the commands `commands`, run in order (as a macro runs them).
    pub fn with_commands(commands: Vec<String>) -> (r: Runner)
        ensures
            r@.queue == views(commands@),
            !r@.reload,
            r@.waiting is None,
    {
        Runner { queue: commands, reload: false, waiting: None }
    }

    fn take_result(&mut self, r: Result<Outcome, CommandError>) -> (s: Step)
        requires
            old(self)@.waiting is None,
        ensures
            (final(self)@, s@) == advance(old(self)@, res_view(r)),
    {
        match r {
            Err(e) => {
                self.queue = Vec::new();
                assert(views(self.queue@) =~= Seq::<Seq<char>>::empty());
                Step::Finished(Err(e))
            },
            Ok(Outcome::Return(CommandReturn::Quit)) => {
                self.queue = Vec::new();
                assert(views(self.queue@) =~= Seq::<Seq<char>>::empty());
                Step::Finished(Ok(CommandReturn::Quit))
            },
            Ok(Outcome::Return(CommandReturn::QuitNoSave)) => {
                self.queue = Vec::new();
                assert(views(self.queue@) =~= Seq::<Seq<char>>::empty());
                Step::Finished(Ok(CommandReturn::QuitNoSave))
            },
            Ok(Outcome::Return(CommandReturn::ReloadFirstSong)) => {
                self.reload = true;
                Step::Continue
            },
            Ok(Outcome::Return(CommandReturn::Nothing)) => Step::Continue,
            Ok(Outcome::Expand(cmds)) => {
                let mut cmds = cmds;
                let ghost first = views(cmds@);
                let ghost rest = views(self.queue@);
                cmds.append(&mut self.queue);
                self.queue = cmds;
                assert(views(self.queue@) =~= first + rest);
                Step::Continue
            },
            Ok(Outcome::Request(e, p)) => {
                self.waiting = Some(p);
                Step::Perform(e)
            },
        }
    }

    /// Runs the next command, if there is one, against the context.
    pub fn step(&mut self, ctx: &mut Context) -> (s: Step)
        requires
            old(ctx).wf(),
            old(self)@.waiting is None,
        ensures
            final(ctx).wf(),
            old(self)@.queue.len() == 0 ==> final(ctx)@ == old(ctx)@ && final(self)@ == old(self)@
                && s@ == StepView::Finished(Ok(final_return(old(self)@.reload))),
            old(self)@.queue.len() > 0 ==> exists|r: Result<OutcomeView, CommandErrorView>|
                #[trigger] input_post(old(ctx)@, old(self)@.queue[0], final(ctx)@, r) && advance(
                    RunnerView { queue: old(self)@.queue.drop_first(), ..old(self)@ },
                    r,
                ) == (final(self)@, s@),
    {
        if self.queue.len() == 0 {
            return Step::Finished(Ok(if self.reload {
                CommandReturn::ReloadFirstSong
            } else {
                CommandReturn::Nothing
            }));
        }
        let ghost q = views(self.queue@);
        let line = self.queue.remove(0);
        assert(views(self.queue@) =~= q.drop_first());
        assert(line@ == q[0]);
        let r = match_input(line.as_str(), ctx);
        let ghost rv = res_view(r);
        let s = self.take_result(r);
        assert(input_post(old(ctx)@, old(self)@.queue[0], ctx@, rv));
        s
    }

    /// Hands the reply to the effect to the command that waits for it.
    pub fn answer(&mut self, ctx: &mut Context, reply: Reply) -> (s: Step)
        requires
            old(ctx).wf(),
            reply.wf(),
            old(self)@.waiting matches Some(p) && answers(p, reply@),
        ensures
            final(ctx).wf(),
            final(ctx)@ == resume_spec(old(ctx)@, old(self)@.waiting.unwrap(), reply@).0,
            (final(self)@, s@) == advance(
                RunnerView { waiting: None, ..old(self)@ },
                resume_spec(old(ctx)@, old(self)@.waiting.unwrap(), reply@).1,
            ),
    {
        let p = self.waiting.take();
        match p {
            Some(p) => {
                let r = resume(ctx, p, reply);
                self.take_result(r)
            },
            None => Step::Continue,
        }
    }
}

/// The runner of the commands `commands` of a macro with the arguments
/// `args`: `$0`, `$1`, ... and `$a` stand for them, and the commands are
/// separated by `; `.
pub fn run_commands(commands: &str, args: &Vec<String>) -> (r: Runner)
    ensures
        r@ == (RunnerView { queue: expand_spec(commands@, views(args@)), reload: false, waiting: None }),
{
    Runner::with_commands(expand(commands, args))
}

} // verus!
