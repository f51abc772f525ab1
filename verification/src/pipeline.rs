//! The per-request execution pipeline, as a state machine.
//!
//! The library decides every transition; the surrounding program performs
//! the effects (file writes, sandboxed subprocesses) and reports each result
//! back as the next event. A request passes once through
//! stage → compile (compiled languages only) → run, with every staged file
//! removed on every terminal path and nothing retried.

use vstd::prelude::*;

use crate::command::{
    compile_command, compile_flags, compiler_invocation, rlimit_flag, run_command, run_flags,
    CommandSpec,
};
use crate::lang::{Lang, Status};
use crate::workspace::{fresh_token, is_token, source_name, source_name_of};

verus! {

/// What the pipeline asks the surrounding program to do next.
pub enum Effect {
    /// Create the file `name` inside the scratch directory, holding
    /// `contents` verbatim.
    CreateFile { name: String, contents: String },
    /// Remove the file `name` from the scratch directory, if it exists.
    RemoveFile { name: String },
    /// Start `command` with the scratch directory as working directory,
    /// write `stdin` to the child when present, wait, and report the
    /// captured standard output and standard error back, along with whether
    /// the child was terminated rather than exiting of its own accord.
    Spawn { command: CommandSpec, stdin: Option<String> },
    /// The request is finished with this outcome.
    Respond { status: Status, message: String },
}

/// The mathematical value of an effect.
#[verifier::ext_equal]
pub enum EffectModel {
    CreateFile { name: Seq<char>, contents: Seq<char> },
    RemoveFile { name: Seq<char> },
    Spawn { program: Seq<char>, args: Seq<Seq<char>>, stdin: Option<Seq<char>> },
    Respond { status: Status, message: Seq<char> },
}

/// The view of an optional text.
pub open spec fn opt_view(o: Option<String>) -> Option<Seq<char>> {
    match o {
        Some(s) => Some(s@),
        None => None,
    }
}

impl View for Effect {
    type V = EffectModel;

    open spec fn view(&self) -> EffectModel {
        match self {
            Effect::CreateFile { name, contents } => EffectModel::CreateFile {
                name: name@,
                contents: contents@,
            },
            Effect::RemoveFile { name } => EffectModel::RemoveFile { name: name@ },
            Effect::Spawn { command, stdin } => EffectModel::Spawn {
                program: command.program@,
                args: command.args.deep_view(),
                stdin: opt_view(*stdin),
            },
            Effect::Respond { status, message } => EffectModel::Respond {
                status: *status,
                message: message@,
            },
        }
    }
}

/// The values of a list of effects, in order.
pub open spec fn effects_view(s: Seq<Effect>) -> Seq<EffectModel> {
    Seq::new(s.len(), |i: int| s[i]@)
}

/// Where a request stands.
pub enum Phase {
    /// The workspace file is being written.
    AwaitWrite,
    /// The compiler is running.
    AwaitCompile,
    /// The program is running.
    AwaitRun,
    /// Finished, with its outcome.
    Done { status: Status, message: String },
}

/// The mathematical value of a phase.
#[verifier::ext_equal]
pub enum PhaseModel {
    AwaitWrite,
    AwaitCompile,
    AwaitRun,
    Done { status: Status, message: Seq<char> },
}

impl View for Phase {
    type V = PhaseModel;

    open spec fn view(&self) -> PhaseModel {
        match self {
            Phase::AwaitWrite => PhaseModel::AwaitWrite,
            Phase::AwaitCompile => PhaseModel::AwaitCompile,
            Phase::AwaitRun => PhaseModel::AwaitRun,
            Phase::Done { status, message } => PhaseModel::Done {
                status: *status,
                message: message@,
            },
        }
    }
}

/// One request's pipeline.
pub struct Pipeline {
    pub lang: Lang,
    pub source_code: String,
    pub input: String,
    pub time_limit: u8,
    /// The workspace source file: the token, a dot, the extension.
    pub src_name: String,
    /// The name a compiled binary is written under: the bare token.
    pub exe_name: String,
    pub phase: Phase,
}

/// The mathematical value of a pipeline.
#[verifier::ext_equal]
pub struct PipelineModel {
    pub lang: Lang,
    pub source_code: Seq<char>,
    pub input: Seq<char>,
    pub time_limit: u8,
    pub src_name: Seq<char>,
    pub exe_name: Seq<char>,
    pub phase: PhaseModel,
}

impl View for Pipeline {
    type V = PipelineModel;

    open spec fn view(&self) -> PipelineModel {
        PipelineModel {
            lang: self.lang,
            source_code: self.source_code@,
            input: self.input@,
            time_limit: self.time_limit,
            src_name: self.src_name@,
            exe_name: self.exe_name@,
            phase: self.phase@,
        }
    }
}

/// Standard input handed to the child: only a non-empty input is written.
pub open spec fn spec_stdin(input: Seq<char>) -> Option<Seq<char>> {
    if input.len() > 0 {
        Some(input)
    } else {
        None
    }
}

/// The file that remains to remove once the run finishes: the source itself
/// for an interpreted language, the compiled binary otherwise.
pub open spec fn spec_cleanup_name(p: PipelineModel) -> Seq<char> {
    if p.lang.spec_interpreted() {
        p.src_name
    } else {
        p.exe_name
    }
}

/// The compiled binary as the sandbox is told to start it: relative to the
/// scratch directory, so its lookup never goes through the search path.
pub open spec fn spec_run_target(exe_name: Seq<char>) -> Seq<char> {
    "./"@ + exe_name
}

/// Whether compiler output is a hard compile failure: any diagnostic text
/// counts, exit code regardless.
pub open spec fn spec_compile_failed(stderr: Seq<char>) -> bool {
    stderr.len() > 0
}

/// Classification of a finished run. Anything on standard error is a
/// runtime failure reported verbatim, exit code regardless; so is a child
/// the sandbox terminated for a resource-limit or policy violation, with
/// whatever standard error it left (possibly none). Otherwise the captured
/// standard output is the result, byte for byte.
pub open spec fn spec_classify_run(stdout: Seq<char>, stderr: Seq<char>, killed: bool) -> (
    Status,
    Seq<char>,
) {
    if stderr.len() > 0 || killed {
        (Status::RuntimeError, stderr)
    } else {
        (Status::Success, stdout)
    }
}

/// Starting a request: the pipeline, and the order to stage the source text
/// under the token's workspace name.
pub open spec fn spec_start(
    lang: Lang,
    source_code: Seq<char>,
    input: Seq<char>,
    time_limit: u8,
    token: Seq<char>,
) -> (PipelineModel, EffectModel) {
    let p = PipelineModel {
        lang,
        source_code,
        input,
        time_limit,
        src_name: source_name_of(token, lang),
        exe_name: token,
        phase: PhaseModel::AwaitWrite,
    };
    (p, EffectModel::CreateFile { name: p.src_name, contents: source_code })
}

/// After the workspace file is written: an interpreted language goes
/// straight to its sandboxed run; a compiled one goes to its sandboxed
/// compile, with no input and no extra time cap.
pub open spec fn spec_on_file_written(p: PipelineModel) -> (PipelineModel, EffectModel)
    recommends
        p.phase matches PhaseModel::AwaitWrite,
{
    if p.lang.spec_interpreted() {
        (
            PipelineModel { phase: PhaseModel::AwaitRun, ..p },
            EffectModel::Spawn {
                program: "firejail"@,
                args: run_flags(p.time_limit) + seq![p.lang.spec_interpreter()] + seq![p.src_name],
                stdin: spec_stdin(p.input),
            },
        )
    } else {
        (
            PipelineModel { phase: PhaseModel::AwaitCompile, ..p },
            EffectModel::Spawn {
                program: "firejail"@,
                args: compile_flags() + compiler_invocation(p.lang, p.src_name, p.exe_name),
                stdin: None,
            },
        )
    }
}

/// After the compiler finished: the source file is removed either way. Any
/// diagnostic text ends the request as a compile failure with that text, the
/// binary is never started, and whatever half-built binary the compiler may
/// have produced (a warnings-only compile does produce one) is discarded
/// too. Otherwise the binary goes to its sandboxed run.
pub open spec fn spec_on_compile_done(p: PipelineModel, stderr: Seq<char>) -> (
    PipelineModel,
    Seq<EffectModel>,
)
    recommends
        p.phase matches PhaseModel::AwaitCompile,
{
    if spec_compile_failed(stderr) {
        (
            PipelineModel {
                phase: PhaseModel::Done { status: Status::CompilerTimeError, message: stderr },
                ..p
            },
            seq![
                EffectModel::RemoveFile { name: p.src_name },
                EffectModel::RemoveFile { name: p.exe_name },
                EffectModel::Respond { status: Status::CompilerTimeError, message: stderr },
            ],
        )
    } else {
        (
            PipelineModel { phase: PhaseModel::AwaitRun, ..p },
            seq![
                EffectModel::RemoveFile { name: p.src_name },
                EffectModel::Spawn {
                    program: "firejail"@,
                    args: run_flags(p.time_limit) + seq![spec_run_target(p.exe_name)],
                    stdin: spec_stdin(p.input),
                },
            ],
        )
    }
}

/// After the run finished: the remaining artifact is removed and the outcome
/// responds with the classified streams and termination.
pub open spec fn spec_on_run_done(
    p: PipelineModel,
    stdout: Seq<char>,
    stderr: Seq<char>,
    killed: bool,
) -> (PipelineModel, Seq<EffectModel>)
    recommends
        p.phase matches PhaseModel::AwaitRun,
{
    let (status, message) = spec_classify_run(stdout, stderr, killed);
    (
        PipelineModel { phase: PhaseModel::Done { status, message }, ..p },
        seq![
            EffectModel::RemoveFile { name: spec_cleanup_name(p) },
            EffectModel::Respond { status, message },
        ],
    )
}

fn make_stdin(input: &String) -> (r: Option<String>)
    ensures
        opt_view(r) == spec_stdin(input@),
{
    if input.as_str().is_empty() {
        None
    } else {
        Some(input.clone())
    }
}

/// Classifies a finished run. Anything on standard error is a runtime
/// failure reported verbatim, exit code regardless; so is a child the
/// sandbox terminated (`killed`) for a resource-limit or policy violation,
/// with whatever standard error it left. Otherwise the captured standard
/// output is the result, byte for byte.
pub fn classify_run(stdout: String, stderr: String, killed: bool) -> (r: (Status, String))
    ensures
        (r.0, r.1@) == spec_classify_run(stdout@, stderr@, killed),
{
    if !stderr.as_str().is_empty() || killed {
        (Status::RuntimeError, stderr)
    } else {
        (Status::Success, stdout)
    }
}

impl Pipeline {
    /// Starts a request: picks a fresh workspace name from a random token
    /// and asks for the source text to be staged there.
    pub fn start(lang: Lang, source_code: String, input: String, time_limit: u8) -> (r: (
        Pipeline,
        Effect,
    ))
        ensures
            exists|token: Seq<char>|
                #[trigger] is_token(token) && (r.0@, r.1@) == spec_start(
                    lang,
                    source_code@,
                    input@,
                    time_limit,
                    token,
                ),
    {
        let token = fresh_token();
        let ghost t = token@;
        let ghost sc = source_code@;
        let ghost inp = input@;
        let src_name = source_name(&token, &lang);
        let eff = Effect::CreateFile { name: src_name.clone(), contents: source_code.clone() };
        let p = Pipeline {
            lang,
            source_code,
            input,
            time_limit,
            src_name,
            exe_name: token,
            phase: Phase::AwaitWrite,
        };
        proof {
            let (mp, me) = spec_start(lang, sc, inp, time_limit, t);
            assert(p@ =~= mp);
            assert(eff@ =~= me);
            assert(is_token(t) && (p@, eff@) == spec_start(lang, sc, inp, time_limit, t));
        }
        (p, eff)
    }

    /// After the workspace file is written: hands the sandbox either the
    /// interpreter run (interpreted language) or the compiler invocation.
    pub fn on_file_written(&mut self) -> (eff: Effect)
        requires
            old(self).phase matches Phase::AwaitWrite,
        ensures
            (final(self)@, eff@) == spec_on_file_written(old(self)@),
    {
        if self.lang.is_interpreted() {
            let mut extra: Vec<String> = Vec::new();
            extra.push(self.src_name.clone());
            let cmd = run_command(self.lang.interpreter(), &extra, self.time_limit);
            let stdin = make_stdin(&self.input);
            self.phase = Phase::AwaitRun;
            let eff = Effect::Spawn { command: cmd, stdin };
            proof {
                assert(extra.deep_view() =~= seq![old(self).src_name@]);
                let (mp, me) = spec_on_file_written(old(self)@);
                assert(self@ =~= mp);
                assert(eff@ =~= me);
            }
            eff
        } else {
            let cmd = compile_command(&self.lang, &self.src_name, &self.exe_name);
            self.phase = Phase::AwaitCompile;
            let eff = Effect::Spawn { command: cmd, stdin: None };
            proof {
                let (mp, me) = spec_on_file_written(old(self)@);
                assert(self@ =~= mp);
                assert(eff@ =~= me);
            }
            eff
        }
    }

    /// After the compiler finished, with its captured standard error: the
    /// source file is removed either way. Any diagnostic text ends the
    /// request as a compile failure, the binary is never started, and
    /// whatever half-built binary may exist is discarded too; otherwise the
    /// binary goes to its sandboxed run, started relative to the scratch
    /// directory.
    pub fn on_compile_done(&mut self, stderr: String) -> (effs: Vec<Effect>)
        requires
            old(self).phase matches Phase::AwaitCompile,
        ensures
            final(self)@ == spec_on_compile_done(old(self)@, stderr@).0,
            effects_view(effs@) == spec_on_compile_done(old(self)@, stderr@).1,
    {
        let mut effs: Vec<Effect> = Vec::new();
        effs.push(Effect::RemoveFile { name: self.src_name.clone() });
        if !stderr.as_str().is_empty() {
            effs.push(Effect::RemoveFile { name: self.exe_name.clone() });
            effs.push(Effect::Respond {
                status: Status::CompilerTimeError,
                message: stderr.clone(),
            });
            self.phase = Phase::Done { status: Status::CompilerTimeError, message: stderr };
            proof {
                let (mp, ms) = spec_on_compile_done(old(self)@, stderr@);
                assert(self@ =~= mp);
                assert(effects_view(effs@) =~~= ms);
            }
        } else {
            let mut target = String::from_str("./");
            target.append(self.exe_name.as_str());
            let empty_args: Vec<String> = Vec::new();
            let cmd = run_command(target.as_str(), &empty_args, self.time_limit);
            let stdin = make_stdin(&self.input);
            effs.push(Effect::Spawn { command: cmd, stdin });
            self.phase = Phase::AwaitRun;
            proof {
                assert(empty_args.deep_view() =~= Seq::<Seq<char>>::empty());
                assert(run_flags(old(self).time_limit) + seq![spec_run_target(old(self).exe_name@)]
                    + Seq::<Seq<char>>::empty() =~= run_flags(old(self).time_limit) + seq![
                    spec_run_target(old(self).exe_name@),
                ]);
                let (mp, ms) = spec_on_compile_done(old(self)@, stderr@);
                assert(self@ =~= mp);
                assert(effects_view(effs@) =~~= ms);
            }
        }
        effs
    }

    /// After the run finished, with its captured streams and whether the
    /// sandbox terminated the child: the remaining artifact is removed and
    /// the classified outcome responds.
    pub fn on_run_done(&mut self, stdout: String, stderr: String, killed: bool) -> (effs: Vec<
        Effect,
    >)
        requires
            old(self).phase matches Phase::AwaitRun,
        ensures
            final(self)@ == spec_on_run_done(old(self)@, stdout@, stderr@, killed).0,
            effects_view(effs@) == spec_on_run_done(old(self)@, stdout@, stderr@, killed).1,
    {
        let name = if self.lang.is_interpreted() {
            self.src_name.clone()
        } else {
            self.exe_name.clone()
        };
        let mut effs: Vec<Effect> = Vec::new();
        effs.push(Effect::RemoveFile { name });
        let (status, message) = classify_run(stdout, stderr, killed);
        effs.push(Effect::Respond { status, message: message.clone() });
        self.phase = Phase::Done { status, message };
        proof {
            let (mp, ms) = spec_on_run_done(old(self)@, stdout@, stderr@, killed);
            assert(self@ =~= mp);
            assert(effects_view(effs@) =~~= ms);
        }
        effs
    }
}

/// One complete request at the spec level, given everything the outside
/// world contributes: the token behind the workspace name, the compiler's
/// captured standard error (consulted for compiled languages only), the
/// program's captured streams, and whether the sandbox terminated the
/// program. Yields the final pipeline and every effect, in order.
pub open spec fn spec_complete(
    lang: Lang,
    source: Seq<char>,
    input: Seq<char>,
    limit: u8,
    token: Seq<char>,
    compile_stderr: Seq<char>,
    run_stdout: Seq<char>,
    run_stderr: Seq<char>,
    run_killed: bool,
) -> (PipelineModel, Seq<EffectModel>) {
    let (p0, e0) = spec_start(lang, source, input, limit, token);
    let (p1, e1) = spec_on_file_written(p0);
    if lang.spec_interpreted() {
        let (p2, es) = spec_on_run_done(p1, run_stdout, run_stderr, run_killed);
        (p2, seq![e0, e1] + es)
    } else {
        let (p2, es) = spec_on_compile_done(p1, compile_stderr);
        if spec_compile_failed(compile_stderr) {
            (p2, seq![e0, e1] + es)
        } else {
            let (p3, fs) = spec_on_run_done(p2, run_stdout, run_stderr, run_killed);
            (p3, seq![e0, e1] + es + fs)
        }
    }
}

/// Law: nothing is retried. A complete request starts at most two
/// subprocesses — its compile (compiled languages only) and then its run —
/// and it responds exactly once, as its very last effect, with the same
/// outcome its final state holds.
pub proof fn lemma_single_pass(
    lang: Lang,
    source: Seq<char>,
    input: Seq<char>,
    limit: u8,
    token: Seq<char>,
    compile_stderr: Seq<char>,
    run_stdout: Seq<char>,
    run_stderr: Seq<char>,
    run_killed: bool,
)
    ensures
        ({
            let (p, effs) = spec_complete(
                lang,
                source,
                input,
                limit,
                token,
                compile_stderr,
                run_stdout,
                run_stderr,
                run_killed,
            );
            &&& 4 <= effs.len() <= 6
            &&& forall|i: int|
                (0 <= i < effs.len() && (#[trigger] effs[i]) matches EffectModel::Spawn { .. })
                    ==> (i == 1 || i == 3)
            &&& forall|i: int|
                (0 <= i < effs.len() && (#[trigger] effs[i]) matches EffectModel::Respond { .. })
                    ==> i == effs.len() - 1
            &&& (p.phase matches PhaseModel::Done { status, message } && effs.last()
                == EffectModel::Respond { status, message })
        }),
{
}

/// Law: every complete request stages exactly one workspace file — the
/// source file, named from its token — and removes that same file again
/// before the response, whichever terminal state is reached. A compiled
/// request also orders the binary's name removed, both when the compile
/// succeeded and when diagnostics ended the request (a warnings-only compile
/// does leave a binary behind), so no request leaves residue in the scratch
/// directory.
pub proof fn lemma_workspace_no_leak(
    lang: Lang,
    source: Seq<char>,
    input: Seq<char>,
    limit: u8,
    token: Seq<char>,
    compile_stderr: Seq<char>,
    run_stdout: Seq<char>,
    run_stderr: Seq<char>,
    run_killed: bool,
)
    ensures
        ({
            let effs = spec_complete(
                lang,
                source,
                input,
                limit,
                token,
                compile_stderr,
                run_stdout,
                run_stderr,
                run_killed,
            ).1;
            let src = source_name_of(token, lang);
            &&& effs.len() >= 4
            &&& effs[0] == EffectModel::CreateFile { name: src, contents: source }
            &&& forall|i: int|
                1 <= i < effs.len() ==> !((#[trigger] effs[i]) matches EffectModel::CreateFile {
                    ..
                })
            &&& effs[2] == EffectModel::RemoveFile { name: src }
            &&& (!lang.spec_interpreted() && compile_stderr.len() > 0) ==> effs.len() == 5
                && effs[3] == EffectModel::RemoveFile { name: token }
            &&& (!lang.spec_interpreted() && compile_stderr.len() == 0) ==> effs.len() == 6
                && effs[4] == EffectModel::RemoveFile { name: token }
        }),
{
}

/// Law: for a compiled language, the final status is CompileTimeError
/// exactly when the compiler wrote diagnostic text; and when it did, the
/// compile invocation is the only subprocess ever started — the binary never
/// runs.
pub proof fn lemma_compile_classification(
    lang: Lang,
    source: Seq<char>,
    input: Seq<char>,
    limit: u8,
    token: Seq<char>,
    compile_stderr: Seq<char>,
    run_stdout: Seq<char>,
    run_stderr: Seq<char>,
    run_killed: bool,
)
    requires
        !lang.spec_interpreted(),
    ensures
        ({
            let (p, effs) = spec_complete(
                lang,
                source,
                input,
                limit,
                token,
                compile_stderr,
                run_stdout,
                run_stderr,
                run_killed,
            );
            &&& p.phase matches PhaseModel::Done { .. }
            &&& compile_stderr.len() > 0 ==> p.phase == PhaseModel::Done {
                status: Status::CompilerTimeError,
                message: compile_stderr,
            }
            &&& compile_stderr.len() > 0 ==> effs.len() == 5 && (forall|i: int|
                (0 <= i < effs.len() && (#[trigger] effs[i]) matches EffectModel::Spawn { .. })
                    ==> i == 1)
            &&& compile_stderr.len() == 0 ==> !(p.phase matches PhaseModel::Done {
                status: Status::CompilerTimeError,
                ..
            })
        }),
{
}

/// Law: the program's captured streams and its termination decide the final
/// outcome. A run that wrote nothing to standard error and ended of its own
/// accord succeeds, and its captured standard output is the message, byte
/// for byte; a run that wrote anything to standard error is a runtime
/// failure with that text, exit code regardless; a run the sandbox
/// terminated for a resource-limit or policy violation is a runtime failure
/// even when it left standard error empty.
pub proof fn lemma_run_classification(
    lang: Lang,
    source: Seq<char>,
    input: Seq<char>,
    limit: u8,
    token: Seq<char>,
    compile_stderr: Seq<char>,
    run_stdout: Seq<char>,
    run_stderr: Seq<char>,
    run_killed: bool,
)
    requires
        lang.spec_interpreted() || compile_stderr.len() == 0,
    ensures
        ({
            let p = spec_complete(
                lang,
                source,
                input,
                limit,
                token,
                compile_stderr,
                run_stdout,
                run_stderr,
                run_killed,
            ).0;
            &&& (run_stderr.len() == 0 && !run_killed) ==> p.phase == PhaseModel::Done {
                status: Status::Success,
                message: run_stdout,
            }
            &&& run_stderr.len() > 0 ==> p.phase == PhaseModel::Done {
                status: Status::RuntimeError,
                message: run_stderr,
            }
            &&& run_killed ==> p.phase == PhaseModel::Done {
                status: Status::RuntimeError,
                message: run_stderr,
            }
        }),
{
}

/// Law: the run invocation of every request carries the request's CPU-time
/// cap among its sandbox flags. The sandbox engine kills the program once
/// the cap is exceeded, and that termination is reported back as the
/// `killed` event, which classifies as a runtime failure rather than a hang
/// or a success, whatever the program wrote.
pub proof fn lemma_run_has_cpu_cap(
    lang: Lang,
    source: Seq<char>,
    input: Seq<char>,
    limit: u8,
    token: Seq<char>,
    compile_stderr: Seq<char>,
    run_stdout: Seq<char>,
    run_stderr: Seq<char>,
    run_killed: bool,
)
    requires
        lang.spec_interpreted() || compile_stderr.len() == 0,
    ensures
        ({
            let effs = spec_complete(
                lang,
                source,
                input,
                limit,
                token,
                compile_stderr,
                run_stdout,
                run_stderr,
                run_killed,
            ).1;
            let run_at: int = if lang.spec_interpreted() {
                1
            } else {
                3
            };
            effs[run_at] matches EffectModel::Spawn { args, .. } && args.contains(
                rlimit_flag(limit),
            )
        }),
{
    let effs = spec_complete(
        lang,
        source,
        input,
        limit,
        token,
        compile_stderr,
        run_stdout,
        run_stderr,
        run_killed,
    ).1;
    let run_at: int = if lang.spec_interpreted() {
        1
    } else {
        3
    };
    assert(effs[run_at] matches EffectModel::Spawn { args, .. } && args[8] == rlimit_flag(limit));
}

} // verus!
