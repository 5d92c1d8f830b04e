//! The per-run orchestration: a single pass over the credential sequence in
//! which every failure but the initial configuration load is isolated to its
//! own credential — logged and skipped, never fatal.

use vstd::prelude::*;
use vstd::string::*;
use crate::command::{dump_command, spec_dump_command, CommandModel, DumpCommand};
use crate::logger::{flush_if_non_empty, seq_views, spec_concat_entries};
use crate::naming::{
    dump_error_entry, join_path, output_file_name, spec_dump_error_entry, spec_join_path,
    spec_log_file_name, spec_output_file_name, spec_unknown_engine_entry, spec_write_error_entry,
    unknown_engine_entry, write_error_entry,
};
use crate::time::Timestamp;
use crate::types::{CredentialModel, DBEngine, ProfugoConfig, ProfugoContainersConfig,
    spec_resolve_engine};

verus! {

/// What the permissive decode of a byte sequence yields: the result of std's
/// lossy UTF-8 decoding, a function of the bytes alone.
pub uninterp spec fn lossy_of(bytes: Seq<u8>) -> Seq<char>;

/// Relies on std's String::from_utf8_lossy: the result depends on the bytes
/// alone, invalid sequences are replaced rather than failing, and a valid
/// UTF-8 input decodes to the string that encodes those very bytes.
#[verifier::external_body]
pub(crate) fn lossy_utf8(bytes: &[u8]) -> (r: String)
    ensures
        r@ == lossy_of(bytes@),
        vstd::utf8::valid_utf8(bytes@) ==> vstd::utf8::encode_utf8(r@) == bytes@,
{
    String::from_utf8_lossy(bytes).into_owned()
}

/// The state one run threads through its single pass: the full input length,
/// the 1-based counter of credentials whose engine resolved, and the
/// accumulated failure log entries in append order.
pub struct Orchestrator {
    pub total: usize,
    pub processed: usize,
    pub logs: Vec<String>,
}

impl Orchestrator {
    /// Starts a run over `total` credentials with an empty log buffer.
    pub fn new(total: usize) -> (r: Orchestrator)
        ensures
            r.total == total,
            r.processed == 0,
            r.logs@.len() == 0,
    {
        Orchestrator { total, processed: 0, logs: Vec::new() }
    }

    /// Resolves one credential's engine. An unknown engine appends exactly
    /// one log entry and skips the credential; a resolved engine advances the
    /// processed counter and yields the dump command to attempt.
    pub fn begin_credential(&mut self, cred: &ProfugoContainersConfig, ts: Timestamp) -> (r: Option<
        DumpCommand,
    >)
        requires
            ts.wf(),
            old(self).processed < usize::MAX,
        ensures
            final(self).total == old(self).total,
            spec_resolve_engine(cred@.engine) is None ==> {
                &&& r is None
                &&& final(self).processed == old(self).processed
                &&& seq_views(final(self).logs@) == seq_views(old(self).logs@).push(
                    spec_unknown_engine_entry(ts, cred@.engine),
                )
            },
            spec_resolve_engine(cred@.engine) matches Some(engine) ==> {
                &&& r matches Some(cmd) && cmd@ == spec_dump_command(engine, cred@)
                &&& final(self).processed == old(self).processed + 1
                &&& final(self).logs == old(self).logs
            },
    {
        match DBEngine::from_str(cred.engine.as_str()) {
            None => {
                let entry = unknown_engine_entry(&ts, cred.engine.as_str());
                self.logs.push(entry);
                proof {
                    assert(seq_views(self.logs@) =~= seq_views(old(self).logs@).push(
                        spec_unknown_engine_entry(ts, cred@.engine),
                    ));
                }
                None
            },
            Some(engine) => {
                self.processed = self.processed + 1;
                Some(dump_command(engine, cred))
            },
        }
    }

    /// Takes what running the dump command returned. An execution error
    /// appends exactly one log entry and skips the credential; captured
    /// output yields the output-file name and the permissively decoded
    /// content to persist.
    pub fn after_dump(
        &mut self,
        cred: &ProfugoContainersConfig,
        ts: Timestamp,
        outcome: &Result<Vec<u8>, String>,
    ) -> (r: Option<(String, String)>)
        requires
            ts.wf(),
        ensures
            final(self).total == old(self).total,
            final(self).processed == old(self).processed,
            (*outcome) matches Err(e) ==> {
                &&& r is None
                &&& seq_views(final(self).logs@) == seq_views(old(self).logs@).push(
                    spec_dump_error_entry(ts, cred@, e@),
                )
            },
            (*outcome) matches Ok(bytes) ==> {
                &&& r matches Some(f) && f.0@ == spec_output_file_name(
                    cred@.engine,
                    ts,
                    cred@.container_name,
                    cred@.db_name,
                ) && f.1@ == lossy_of(bytes@)
                &&& final(self).logs == old(self).logs
            },
    {
        match outcome {
            Err(e) => {
                let entry = dump_error_entry(&ts, cred, e.as_str());
                self.logs.push(entry);
                proof {
                    assert(seq_views(self.logs@) =~= seq_views(old(self).logs@).push(
                        spec_dump_error_entry(ts, cred@, outcome->Err_0@),
                    ));
                }
                None
            },
            Ok(bytes) => {
                let name = output_file_name(
                    cred.engine.as_str(),
                    &ts,
                    cred.container_name.as_str(),
                    cred.db_name.as_str(),
                );
                let content = lossy_utf8(bytes.as_slice());
                Some((name, content))
            },
        }
    }

    /// Takes what persisting the captured dump returned. A write failure
    /// appends exactly one log entry; the dump is lost but the run goes on.
    pub fn after_write(
        &mut self,
        cred: &ProfugoContainersConfig,
        ts: Timestamp,
        path: &str,
        outcome: &Result<(), String>,
    )
        requires
            ts.wf(),
        ensures
            final(self).total == old(self).total,
            final(self).processed == old(self).processed,
            (*outcome) is Ok ==> final(self).logs == old(self).logs,
            (*outcome) matches Err(e) ==> seq_views(final(self).logs@) == seq_views(
                old(self).logs@,
            ).push(spec_write_error_entry(ts, cred@, path@, e@)),
    {
        match outcome {
            Ok(_) => {},
            Err(e) => {
                let entry = write_error_entry(&ts, cred, path, e.as_str());
                self.logs.push(entry);
                proof {
                    assert(seq_views(self.logs@) =~= seq_views(old(self).logs@).push(
                        spec_write_error_entry(ts, cred@, path@, outcome->Err_0@),
                    ));
                }
            },
        }
    }

    /// The one flush at end of run: no log file when no entry accumulated;
    /// otherwise exactly one file holding every entry in append order.
    pub fn finalize(&self, ts: &Timestamp) -> (r: Option<(String, String)>)
        requires
            ts.wf(),
        ensures
            r is None <==> self.logs@.len() == 0,
            r matches Some(f) ==> f.0@ == spec_log_file_name(*ts) && f.1@ == spec_concat_entries(
                seq_views(self.logs@),
            ),
    {
        flush_if_non_empty(&self.logs, ts)
    }
}

/// The outside outcomes one credential's processing meets: what running its
/// dump command returned, what persisting its output returned, and the clock
/// reading its names and entries carry. Outcomes for a skipped credential are
/// never consulted.
pub struct CredentialEvents {
    pub dump: Result<Vec<u8>, String>,
    pub write: Result<(), String>,
    pub ts: Timestamp,
}

/// Mathematical model of the outside outcomes for one credential.
#[verifier::ext_equal]
pub struct EventModel {
    pub dump: Result<Seq<u8>, Seq<char>>,
    pub write: Result<(), Seq<char>>,
    pub ts: Timestamp,
}

impl View for CredentialEvents {
    type V = EventModel;

    open spec fn view(&self) -> EventModel {
        EventModel {
            dump: match self.dump {
                Ok(bytes) => Ok(bytes@),
                Err(e) => Err(e@),
            },
            write: match self.write {
                Ok(u) => Ok(u),
                Err(e) => Err(e@),
            },
            ts: self.ts,
        }
    }
}

/// One attempted persistence: the full path and the decoded content handed to
/// the writer.
pub struct FileWrite {
    pub path: String,
    pub content: String,
}

/// Mathematical model of one attempted persistence.
#[verifier::ext_equal]
pub struct FileWriteModel {
    pub path: Seq<char>,
    pub content: Seq<char>,
}

impl View for FileWrite {
    type V = FileWriteModel;

    open spec fn view(&self) -> FileWriteModel {
        FileWriteModel { path: self.path@, content: self.content@ }
    }
}

/// Everything one run produced: the dump commands attempted, the persistence
/// attempts, and the failure log entries, each in processing order.
pub struct RunReport {
    pub commands: Vec<DumpCommand>,
    pub writes: Vec<FileWrite>,
    pub logs: Vec<String>,
}

/// Mathematical model of a whole run's products.
#[verifier::ext_equal]
pub struct RunModel {
    pub commands: Seq<CommandModel>,
    pub writes: Seq<FileWriteModel>,
    pub logs: Seq<Seq<char>>,
}

impl View for RunReport {
    type V = RunModel;

    open spec fn view(&self) -> RunModel {
        RunModel {
            commands: Seq::new(self.commands@.len(), |i: int| self.commands@[i]@),
            writes: Seq::new(self.writes@.len(), |i: int| self.writes@[i]@),
            logs: seq_views(self.logs@),
        }
    }
}

/// A run that produces nothing.
pub open spec fn empty_model() -> RunModel {
    RunModel { commands: Seq::empty(), writes: Seq::empty(), logs: Seq::empty() }
}

/// Two runs' products, one after the other.
pub open spec fn model_concat(a: RunModel, b: RunModel) -> RunModel {
    RunModel {
        commands: a.commands + b.commands,
        writes: a.writes + b.writes,
        logs: a.logs + b.logs,
    }
}

/// What processing one credential produces, given its outside outcomes: an
/// unknown engine is one log entry and nothing else; a dump-command failure
/// is the attempted command and one log entry; captured output is the
/// attempted command and one persistence attempt, plus one log entry if that
/// write fails.
pub open spec fn step_model(cred: CredentialModel, ev: EventModel, out_dir: Seq<char>) -> RunModel {
    match spec_resolve_engine(cred.engine) {
        None => RunModel {
            commands: Seq::empty(),
            writes: Seq::empty(),
            logs: seq![spec_unknown_engine_entry(ev.ts, cred.engine)],
        },
        Some(engine) => {
            let cmd = spec_dump_command(engine, cred);
            match ev.dump {
                Err(e) => RunModel {
                    commands: seq![cmd],
                    writes: Seq::empty(),
                    logs: seq![spec_dump_error_entry(ev.ts, cred, e)],
                },
                Ok(bytes) => {
                    let path = spec_join_path(
                        out_dir,
                        spec_output_file_name(cred.engine, ev.ts, cred.container_name, cred.db_name),
                    );
                    let write = FileWriteModel { path, content: lossy_of(bytes) };
                    match ev.write {
                        Ok(u) => RunModel {
                            commands: seq![cmd],
                            writes: seq![write],
                            logs: Seq::empty(),
                        },
                        Err(e) => RunModel {
                            commands: seq![cmd],
                            writes: seq![write],
                            logs: seq![spec_write_error_entry(ev.ts, cred, path, e)],
                        },
                    }
                },
            }
        },
    }
}

/// What a whole run produces: the credentials in listed order, each one's
/// products after the previous one's.
pub open spec fn run_model(
    creds: Seq<CredentialModel>,
    events: Seq<EventModel>,
    out_dir: Seq<char>,
) -> RunModel
    decreases creds.len(),
{
    if creds.len() == 0 {
        empty_model()
    } else {
        model_concat(
            step_model(creds[0], events[0], out_dir),
            run_model(creds.drop_first(), events.drop_first(), out_dir),
        )
    }
}

/// A run over one more credential at the end produces that credential's
/// products after all the others'.
#[verifier::rlimit(50)]
pub proof fn lemma_run_model_snoc(
    creds: Seq<CredentialModel>,
    events: Seq<EventModel>,
    out_dir: Seq<char>,
    cred: CredentialModel,
    ev: EventModel,
)
    requires
        creds.len() == events.len(),
    ensures
        run_model(creds.push(cred), events.push(ev), out_dir) == model_concat(
            run_model(creds, events, out_dir),
            step_model(cred, ev, out_dir),
        ),
    decreases creds.len(),
{
    let lhs = run_model(creds.push(cred), events.push(ev), out_dir);
    let rhs = model_concat(run_model(creds, events, out_dir), step_model(cred, ev, out_dir));
    if creds.len() == 0 {
        assert(creds.push(cred)[0] == cred);
        assert(events.push(ev)[0] == ev);
        assert(creds.push(cred).drop_first() =~= Seq::<CredentialModel>::empty());
        assert(events.push(ev).drop_first() =~= Seq::<EventModel>::empty());
        assert(run_model(Seq::<CredentialModel>::empty(), Seq::<EventModel>::empty(), out_dir)
            == empty_model());
        assert(lhs == model_concat(step_model(cred, ev, out_dir), empty_model()));
        assert(rhs == model_concat(empty_model(), step_model(cred, ev, out_dir)));
        assert(lhs.commands =~= rhs.commands);
        assert(lhs.writes =~= rhs.writes);
        assert(lhs.logs =~= rhs.logs);
        assert(lhs =~= rhs);
    } else {
        assert(creds.push(cred).drop_first() =~= creds.drop_first().push(cred));
        assert(events.push(ev).drop_first() =~= events.drop_first().push(ev));
        assert(creds.push(cred)[0] == creds[0]);
        assert(events.push(ev)[0] == events[0]);
        lemma_run_model_snoc(creds.drop_first(), events.drop_first(), out_dir, cred, ev);
        assert(lhs == model_concat(
            step_model(creds[0], events[0], out_dir),
            run_model(creds.drop_first().push(cred), events.drop_first().push(ev), out_dir),
        ));
        assert(rhs == model_concat(
            model_concat(
                step_model(creds[0], events[0], out_dir),
                run_model(creds.drop_first(), events.drop_first(), out_dir),
            ),
            step_model(cred, ev, out_dir),
        ));
        assert(lhs.commands =~= rhs.commands);
        assert(lhs.writes =~= rhs.writes);
        assert(lhs.logs =~= rhs.logs);
        assert(lhs =~= rhs);
    }
}

/// How many credentials of a sequence have a resolvable engine.
pub open spec fn count_resolvable(creds: Seq<CredentialModel>) -> nat
    decreases creds.len(),
{
    if creds.len() == 0 {
        0
    } else {
        (if spec_resolve_engine(creds[0].engine) is Some {
            1nat
        } else {
            0nat
        }) + count_resolvable(creds.drop_first())
    }
}

/// A run attempts exactly one dump per credential whose engine resolves,
/// whatever the outside outcomes are.
pub proof fn lemma_attempts_match_resolvable(
    creds: Seq<CredentialModel>,
    events: Seq<EventModel>,
    out_dir: Seq<char>,
)
    requires
        creds.len() == events.len(),
    ensures
        run_model(creds, events, out_dir).commands.len() == count_resolvable(creds),
    decreases creds.len(),
{
    if creds.len() == 0 {
    } else {
        lemma_attempts_match_resolvable(creds.drop_first(), events.drop_first(), out_dir);
    }
}

/// A configuration with N credentials and no malformed engine entry makes the
/// run attempt exactly N dump operations.
pub proof fn lemma_all_resolvable_attempts_all(
    creds: Seq<CredentialModel>,
    events: Seq<EventModel>,
    out_dir: Seq<char>,
)
    requires
        creds.len() == events.len(),
        forall|i: int| 0 <= i < creds.len() ==> spec_resolve_engine(
            (#[trigger] creds[i]).engine,
        ) is Some,
    ensures
        run_model(creds, events, out_dir).commands.len() == creds.len(),
    decreases creds.len(),
{
    if creds.len() == 0 {
    } else {
        assert forall|i: int| 0 <= i < creds.drop_first().len() implies spec_resolve_engine(
            (#[trigger] creds.drop_first()[i]).engine,
        ) is Some by {
            assert(creds.drop_first()[i] == creds[i + 1]);
        }
        lemma_all_resolvable_attempts_all(creds.drop_first(), events.drop_first(), out_dir);
    }
}

/// An unresolvable engine identifier causes no dump attempt and no
/// persistence attempt for its credential, and exactly one log entry.
pub proof fn lemma_unknown_engine_skipped(cred: CredentialModel, ev: EventModel, out_dir: Seq<char>)
    requires
        spec_resolve_engine(cred.engine) is None,
    ensures
        step_model(cred, ev, out_dir).commands.len() == 0,
        step_model(cred, ev, out_dir).writes.len() == 0,
        step_model(cred, ev, out_dir).logs == seq![spec_unknown_engine_entry(ev.ts, cred.engine)],
{
}

/// The dump attempts of a run depend on the configuration alone: no outside
/// outcome — in particular no dump or write failure for one credential —
/// changes whether the following credentials are processed, or which commands
/// they are processed with.
pub proof fn lemma_failure_isolation(
    creds: Seq<CredentialModel>,
    events_a: Seq<EventModel>,
    events_b: Seq<EventModel>,
    out_dir: Seq<char>,
)
    requires
        creds.len() == events_a.len(),
        creds.len() == events_b.len(),
    ensures
        run_model(creds, events_a, out_dir).commands == run_model(creds, events_b, out_dir).commands,
    decreases creds.len(),
{
    if creds.len() == 0 {
    } else {
        lemma_failure_isolation(creds.drop_first(), events_a.drop_first(), events_b.drop_first(), out_dir);
        assert(step_model(creds[0], events_a[0], out_dir).commands =~= step_model(
            creds[0],
            events_b[0],
            out_dir,
        ).commands);
        assert(run_model(creds, events_a, out_dir).commands =~= run_model(
            creds,
            events_b,
            out_dir,
        ).commands);
    }
}

/// The views of a sequence of credential events.
pub open spec fn event_views(events: Seq<CredentialEvents>) -> Seq<EventModel> {
    Seq::new(events.len(), |i: int| events[i]@)
}

/// Runs the whole backup pass over a configuration, given the outside outcome
/// each credential's processing would meet, and returns everything the run
/// produces, in processing order.
pub fn run(config: &ProfugoConfig, events: &Vec<CredentialEvents>) -> (r: RunReport)
    requires
        events@.len() == config.credentials@.len(),
        forall|i: int| 0 <= i < events@.len() ==> (#[trigger] events@[i]).ts.wf(),
    ensures
        r@ == run_model(config@.credentials, event_views(events@), config@.output_dir),
{
    let total = config.credentials.len();
    let mut orch = Orchestrator::new(total);
    let mut commands: Vec<DumpCommand> = Vec::new();
    let mut writes: Vec<FileWrite> = Vec::new();
    let mut i: usize = 0;
    while i < total
        invariant
            i <= total,
            total == config.credentials@.len(),
            events@.len() == total,
            forall|k: int| 0 <= k < events@.len() ==> (#[trigger] events@[k]).ts.wf(),
            orch.processed <= i,
            (RunModel {
                commands: Seq::new(commands@.len(), |k: int| commands@[k]@),
                writes: Seq::new(writes@.len(), |k: int| writes@[k]@),
                logs: seq_views(orch.logs@),
            }) == run_model(
                config@.credentials.take(i as int),
                event_views(events@).take(i as int),
                config@.output_dir,
            ),
        decreases total - i,
    {
        let cred = &config.credentials[i];
        let ev = &events[i];
        let ghost commands_before = Seq::new(commands@.len(), |k: int| commands@[k]@);
        let ghost writes_before = Seq::new(writes@.len(), |k: int| writes@[k]@);
        let ghost logs_before = seq_views(orch.logs@);
        match orch.begin_credential(cred, ev.ts) {
            None => {},
            Some(cmd) => {
                commands.push(cmd);
                match orch.after_dump(cred, ev.ts, &ev.dump) {
                    None => {},
                    Some((name, content)) => {
                        let path = join_path(config.output_dir.as_str(), name.as_str());
                        let path_for_log = path.clone();
                        writes.push(FileWrite { path, content });
                        orch.after_write(cred, ev.ts, path_for_log.as_str(), &ev.write);
                    },
                }
            },
        }
        proof {
            let creds_v = config@.credentials;
            let evs_v = event_views(events@);
            lemma_run_model_snoc(
                creds_v.take(i as int),
                evs_v.take(i as int),
                config@.output_dir,
                creds_v[i as int],
                evs_v[i as int],
            );
            assert(creds_v.take(i + 1) =~= creds_v.take(i as int).push(creds_v[i as int]));
            assert(evs_v.take(i + 1) =~= evs_v.take(i as int).push(evs_v[i as int]));
            let step = step_model(creds_v[i as int], evs_v[i as int], config@.output_dir);
            assert(Seq::new(commands@.len(), |k: int| commands@[k]@) =~= commands_before
                + step.commands);
            assert(Seq::new(writes@.len(), |k: int| writes@[k]@) =~= writes_before + step.writes);
            assert(seq_views(orch.logs@) =~= logs_before + step.logs);
            assert(RunModel {
                commands: Seq::new(commands@.len(), |k: int| commands@[k]@),
                writes: Seq::new(writes@.len(), |k: int| writes@[k]@),
                logs: seq_views(orch.logs@),
            } =~~= run_model(creds_v.take(i + 1), evs_v.take(i + 1), config@.output_dir));
        }
        i += 1;
    }
    proof {
        assert(config@.credentials.take(total as int) =~= config@.credentials);
        assert(event_views(events@).take(total as int) =~= event_views(events@));
    }
    let r = RunReport { commands, writes, logs: orch.logs };
    proof {
        assert(r@ =~~= run_model(config@.credentials, event_views(events@), config@.output_dir));
    }
    r
}

} // verus!
