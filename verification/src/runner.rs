//! Run orchestration: one linear pass per process invocation —
//! initialization, an optional data fetch, prompt building, invocation,
//! result — with an aborted terminal state reachable only before
//! initialization succeeds.
//!
//! Each step writes its status records and returns them; the whole
//! run's record sequence is specified by [`run_records`], against which
//! the degrade-and-continue and stop-early laws are proved. The outside
//! work itself — reading the document, the HTTP fetch, the completion
//! call — happens between the steps, outside this library; each step
//! takes its outcome as a plain value and is verified for every value
//! of it.

use vstd::prelude::*;
use vstd::string::StringExecFns;
use crate::config::{AgentConfig, ConfigError, RawConfig, config_of, first_error, raw_valid, validate_config};
use crate::prompt::{Payload, announcement, build_data_prompt, build_prompt, data_prompt, fetch_announcement, full_prompt, start_opt};
use crate::record::{LogRecord, RecModel, models};

verus! {

/// What the data fetch needs: the free-text query and the sliding
/// window it is bounded by.
pub struct FetchRequest {
    pub query: String,
    pub minutes: u32,
    pub start_backtest: String,
}

/// Why a fetch failed: the transport, or a response that was not valid
/// structured data.
#[derive(Debug, Clone, Copy, PartialEq, Eq, Structural)]
pub enum FetchErrorKind {
    Network,
    MalformedResponse,
}

/// What came back from the data fetch: the payload and the service's
/// reported duration text, or the failure's kind and description. A
/// fetch failure is recoverable: the run proceeds without data.
pub enum FetchOutcome {
    Success { payload: Payload, time_text: String },
    Failure { kind: FetchErrorKind, error_text: String },
}

/// The pipeline after successful initialization: it owns the validated
/// configuration, immutable for the rest of the run.
pub struct Runner {
    pub config: AgentConfig,
}

/// A record model with a payload field.
pub open spec fn rec_of(tag: Seq<char>, msg: Seq<char>, data: Seq<char>) -> RecModel {
    RecModel { tag, msg, data }
}

/// A record model with an empty payload field.
pub open spec fn plain_rec(tag: Seq<char>, msg: Seq<char>) -> RecModel {
    rec_of(tag, msg, Seq::empty())
}

/// A fetch is planned exactly when a sliding range with a start
/// timestamp is configured.
pub open spec fn fetch_planned(cfg: AgentConfig) -> bool {
    match cfg.data.time_range.sliding {
        Some(s) => s.start_backtest is Some,
        None => false,
    }
}

/// The planned window length (meaningful only where a fetch is planned).
pub open spec fn plan_minutes(cfg: AgentConfig) -> u32 {
    cfg.data.time_range.sliding->0.minutes
}

/// The planned start timestamp (meaningful only where a fetch is planned).
pub open spec fn plan_start(cfg: AgentConfig) -> Seq<char> {
    cfg.data.time_range.sliding->0.start_backtest->0@
}

/// The record written when initialization begins.
pub open spec fn init_records() -> Seq<RecModel> {
    seq![plain_rec("INFO"@, "Initializing agent..."@)]
}

/// The records written once the completion client stands: the success
/// mark, and the fetch announcement where a fetch is planned.
pub open spec fn client_records(cfg: AgentConfig) -> Seq<RecModel> {
    seq![plain_rec("SUCCESS"@, "Agent initialized"@)] + if fetch_planned(cfg) {
        seq![plain_rec("INFO"@, announcement(plan_start(cfg), plan_minutes(cfg)))]
    } else {
        Seq::empty()
    }
}

/// The record written for a fetch outcome: the reported duration on
/// success, the failure's description at error level otherwise.
pub open spec fn fetch_records(outcome: FetchOutcome) -> Seq<RecModel> {
    match outcome {
        FetchOutcome::Success { payload: _, time_text } => seq![
            plain_rec("INFO"@, "Received data from server in "@ + time_text@),
        ],
        FetchOutcome::Failure { kind: _, error_text } => seq![plain_rec("ERROR"@, error_text@)],
    }
}

/// The data section a fetch outcome leads to: the built data prompt on
/// success, the empty string on failure (degrade and continue).
pub open spec fn outcome_data_section(cfg: AgentConfig, outcome: FetchOutcome) -> Seq<char> {
    match outcome {
        FetchOutcome::Success { payload, time_text: _ } => data_prompt(start_opt(cfg), payload),
        FetchOutcome::Failure { .. } => Seq::empty(),
    }
}

/// The records written while the prompt is built and the invocation is
/// announced.
pub open spec fn build_records(cfg: AgentConfig, data_section: Seq<char>) -> Seq<RecModel> {
    seq![
        plain_rec("INFO"@, "Building prompt..."@),
        plain_rec("PROMPT"@, full_prompt(cfg.info.character@, cfg.info.task@, data_section)),
        plain_rec("SUCCESS"@, "Prompt available"@),
        plain_rec("INFO"@, "Invoking agent..."@),
    ]
}

/// The records written once the completion text is back: the success
/// mark and the result record, whose message is empty by convention and
/// whose payload is the raw completion text.
pub open spec fn done_records(completion: Seq<char>) -> Seq<RecModel> {
    seq![plain_rec("SUCCESS"@, "Agent invoked"@), rec_of("RESULT"@, Seq::empty(), completion)]
}

/// The data section of the whole run: fetched data only where a fetch
/// was planned and an outcome came back; the empty string otherwise.
pub open spec fn run_data_section(cfg: AgentConfig, fetch: Option<FetchOutcome>) -> Seq<char> {
    if fetch_planned(cfg) {
        match fetch {
            Some(o) => outcome_data_section(cfg, o),
            None => Seq::empty(),
        }
    } else {
        Seq::empty()
    }
}

/// The fetch records of the whole run: present only where a fetch was
/// planned and an outcome came back.
pub open spec fn run_fetch_records(cfg: AgentConfig, fetch: Option<FetchOutcome>) -> Seq<RecModel> {
    if fetch_planned(cfg) {
        match fetch {
            Some(o) => fetch_records(o),
            None => Seq::empty(),
        }
    } else {
        Seq::empty()
    }
}

/// Every record one run writes, in order, as a function of the raw
/// document and the three outside outcomes: whether the completion
/// client could be built, what the fetch returned (where one was
/// planned), and what the completion call returned. A rejected document
/// writes nothing; a client failure stops after the first record; a
/// completion failure stops before the result records.
pub open spec fn run_records(
    raw: RawConfig,
    client_ok: bool,
    fetch: Option<FetchOutcome>,
    completion: Result<String, String>,
) -> Seq<RecModel> {
    if !raw_valid(raw) {
        Seq::empty()
    } else if !client_ok {
        init_records()
    } else {
        let cfg = config_of(raw);
        init_records() + client_records(cfg) + run_fetch_records(cfg, fetch) + build_records(
            cfg,
            run_data_section(cfg, fetch),
        ) + match completion {
            Ok(t) => done_records(t@),
            Err(_) => Seq::empty(),
        }
    }
}

fn make_rec(tag: &str, msg: &str) -> (r: LogRecord)
    ensures
        r@ == plain_rec(tag@, msg@),
{
    LogRecord {
        log_type: String::from_str(tag),
        message: String::from_str(msg),
        data: String::new(),
    }
}

/// Begin a run on a raw document: validate it, and on success write the
/// initialization record and hand back the runner. A rejected document
/// is the run's only path to the aborted state, with the first missing
/// field named and nothing written.
pub fn start_run(raw: RawConfig) -> (r: Result<(Runner, Vec<LogRecord>), ConfigError>)
    ensures
        r is Ok <==> raw_valid(raw),
        r matches Ok(p) ==> p.0.config == config_of(raw) && models(p.1@) == init_records(),
        r matches Err(e) ==> e == first_error(raw),
{
    let config = match validate_config(raw) {
        Ok(c) => c,
        Err(e) => {
            return Err(e);
        },
    };
    let rec = make_rec("INFO", "Initializing agent...");
    rec.emit();
    let mut records: Vec<LogRecord> = Vec::new();
    records.push(rec);
    proof {
        assert(models(records@) =~= init_records());
    }
    Ok((Runner { config }, records))
}

impl Runner {
    /// The completion client stands: write the success record and,
    /// where a fetch is planned, announce and request it. The request
    /// is returned exactly when a sliding range with a start timestamp
    /// is configured.
    pub fn client_ready(&self) -> (r: (Vec<LogRecord>, Option<FetchRequest>))
        ensures
            models(r.0@) == client_records(self.config),
            r.1 is Some <==> fetch_planned(self.config),
            r.1 matches Some(req) ==> req.query@ == self.config.data.user_query@
                && req.minutes == plan_minutes(self.config) && req.start_backtest@ == plan_start(
                self.config,
            ),
    {
        let mut records: Vec<LogRecord> = Vec::new();
        let rec = make_rec("SUCCESS", "Agent initialized");
        rec.emit();
        records.push(rec);
        let plan = match &self.config.data.time_range.sliding {
            Some(s) => match &s.start_backtest {
                Some(b) => {
                    let msg = fetch_announcement(b.as_str(), s.minutes);
                    let rec2 = LogRecord {
                        log_type: String::from_str("INFO"),
                        message: msg,
                        data: String::new(),
                    };
                    rec2.emit();
                    records.push(rec2);
                    Some(
                        FetchRequest {
                            query: self.config.data.user_query.clone(),
                            minutes: s.minutes,
                            start_backtest: b.clone(),
                        },
                    )
                },
                None => None,
            },
            None => None,
        };
        proof {
            assert(models(records@) =~= client_records(self.config));
        }
        (records, plan)
    }

    /// The fetch came back: on success write the duration record and
    /// build the data section from the payload; on failure write the
    /// error record and continue with an empty data section rather than
    /// aborting.
    pub fn fetch_done(&self, outcome: &FetchOutcome) -> (r: (Vec<LogRecord>, String))
        ensures
            models(r.0@) == fetch_records(*outcome),
            r.1@ == outcome_data_section(self.config, *outcome),
    {
        let mut records: Vec<LogRecord> = Vec::new();
        match outcome {
            FetchOutcome::Success { payload, time_text } => {
                let mut msg = String::from_str("Received data from server in ");
                msg.append(time_text.as_str());
                let rec = LogRecord {
                    log_type: String::from_str("INFO"),
                    message: msg,
                    data: String::new(),
                };
                rec.emit();
                records.push(rec);
                let data_section = build_data_prompt(&self.config, payload);
                proof {
                    assert(models(records@) =~= fetch_records(*outcome));
                }
                (records, data_section)
            },
            FetchOutcome::Failure { kind: _, error_text } => {
                let rec = LogRecord {
                    log_type: String::from_str("ERROR"),
                    message: error_text.clone(),
                    data: String::new(),
                };
                rec.emit();
                records.push(rec);
                proof {
                    assert(models(records@) =~= fetch_records(*outcome));
                }
                (records, String::new())
            },
        }
    }

    /// Build the prompt from the configured character and task and the
    /// data section, write the build records — the full prompt among
    /// them, at prompt level — and announce the invocation.
    pub fn build_phase(&self, data_section: &str) -> (r: (Vec<LogRecord>, String))
        ensures
            models(r.0@) == build_records(self.config, data_section@),
            r.1@ == full_prompt(self.config.info.character@, self.config.info.task@, data_section@),
    {
        let mut records: Vec<LogRecord> = Vec::new();
        let rec1 = make_rec("INFO", "Building prompt...");
        rec1.emit();
        records.push(rec1);
        let prompt = build_prompt(&self.config, data_section);
        let rec2 = LogRecord {
            log_type: String::from_str("PROMPT"),
            message: prompt.clone(),
            data: String::new(),
        };
        rec2.emit();
        records.push(rec2);
        let rec3 = make_rec("SUCCESS", "Prompt available");
        rec3.emit();
        records.push(rec3);
        let rec4 = make_rec("INFO", "Invoking agent...");
        rec4.emit();
        records.push(rec4);
        proof {
            assert(models(records@) =~= build_records(self.config, data_section@));
        }
        (records, prompt)
    }

    /// The completion call came back: on success write the success mark
    /// and the result record carrying the raw completion text; on
    /// failure hand the description back — that failure is fatal and
    /// writes no record.
    pub fn completion_done(&self, outcome: Result<String, String>) -> (r: Result<
        Vec<LogRecord>,
        String,
    >)
        ensures
            r is Ok <==> outcome is Ok,
            outcome matches Ok(t) ==> (r matches Ok(recs) && models(recs@) == done_records(t@)),
            outcome matches Err(e) ==> (r matches Err(e2) && e2 == e),
    {
        match outcome {
            Ok(t) => {
                let mut records: Vec<LogRecord> = Vec::new();
                let rec1 = make_rec("SUCCESS", "Agent invoked");
                rec1.emit();
                records.push(rec1);
                let ghost t_model = t@;
                let rec2 = LogRecord {
                    log_type: String::from_str("RESULT"),
                    message: String::new(),
                    data: t,
                };
                rec2.emit();
                records.push(rec2);
                proof {
                    assert(models(records@) =~= done_records(t_model));
                }
                Ok(records)
            },
            Err(e) => Err(e),
        }
    }
}

/// How many records of a sequence carry a given tag.
pub open spec fn count_tag(recs: Seq<RecModel>, tag: Seq<char>) -> nat
    decreases recs.len(),
{
    if recs.len() == 0 {
        0
    } else {
        (if recs.last().tag == tag {
            1nat
        } else {
            0nat
        }) + count_tag(recs.drop_last(), tag)
    }
}

proof fn lemma_count_tag_add(a: Seq<RecModel>, b: Seq<RecModel>, tag: Seq<char>)
    ensures
        count_tag(a + b, tag) == count_tag(a, tag) + count_tag(b, tag),
    decreases b.len(),
{
    if b.len() == 0 {
        assert(a + b =~= a);
    } else {
        assert((a + b).drop_last() =~= a + b.drop_last());
        assert((a + b).last() == b.last());
        lemma_count_tag_add(a, b.drop_last(), tag);
    }
}

proof fn lemma_count_tag_one(x: RecModel, tag: Seq<char>)
    ensures
        count_tag(seq![x], tag) == if x.tag == tag {
            1nat
        } else {
            0nat
        },
{
    let s = seq![x];
    assert(s.len() == 1);
    assert(s.last() == x);
    assert(s.drop_last() =~= Seq::<RecModel>::empty());
    assert(count_tag(s.drop_last(), tag) == 0);
}

proof fn lemma_count_tag_zero(s: Seq<RecModel>, tag: Seq<char>)
    requires
        forall|i: int| 0 <= i < s.len() ==> s[i].tag != tag,
    ensures
        count_tag(s, tag) == 0,
    decreases s.len(),
{
    if s.len() > 0 {
        assert(s.last() == s[s.len() - 1]);
        assert(forall|i: int| 0 <= i < s.drop_last().len() ==> s.drop_last()[i] == s[i]);
        lemma_count_tag_zero(s.drop_last(), tag);
    }
}

/// With no sliding time range configured, no fetch is ever planned —
/// so no fetch call is issued — and the data section of the built
/// prompt is the empty string, whatever outcome is offered.
pub proof fn lemma_no_sliding_no_fetch(raw: RawConfig, fetch: Option<FetchOutcome>)
    requires
        raw_valid(raw),
        config_of(raw).data.time_range.sliding is None,
    ensures
        !fetch_planned(config_of(raw)),
        run_data_section(config_of(raw), fetch) == Seq::<char>::empty(),
        run_fetch_records(config_of(raw), fetch) == Seq::<RecModel>::empty(),
{
}

/// Given the fetch fails, the run degrades and continues: it still
/// reaches the invocation step, its record sequence carries exactly one
/// error record — the fetch failure's — and the prompt's data section
/// is the empty string.
pub proof fn lemma_fetch_failure_degrades(
    raw: RawConfig,
    err_kind: FetchErrorKind,
    err_text: String,
    completion: Result<String, String>,
)
    requires
        raw_valid(raw),
        fetch_planned(config_of(raw)),
    ensures
        count_tag(
            run_records(
                raw,
                true,
                Some((FetchOutcome::Failure { kind: err_kind, error_text: err_text })),
                completion,
            ),
            "ERROR"@,
        ) == 1,
        run_records(
            raw,
            true,
            Some((FetchOutcome::Failure { kind: err_kind, error_text: err_text })),
            completion,
        ).contains(plain_rec("INFO"@, "Invoking agent..."@)),
        run_data_section(
            config_of(raw),
            Some((FetchOutcome::Failure { kind: err_kind, error_text: err_text })),
        ) == Seq::<char>::empty(),
{
    reveal_strlit("INFO");
    reveal_strlit("SUCCESS");
    reveal_strlit("ERROR");
    reveal_strlit("PROMPT");
    reveal_strlit("RESULT");
    let tag = "ERROR"@;
    assert("INFO"@.len() == 4 && "SUCCESS"@.len() == 7 && "PROMPT"@.len() == 6
        && "RESULT"@.len() == 6 && "ERROR"@.len() == 5);
    assert("INFO"@ != tag && "SUCCESS"@ != tag && "PROMPT"@ != tag && "RESULT"@ != tag);
    let cfg = config_of(raw);
    let fetch = Some(FetchOutcome::Failure { kind: err_kind, error_text: err_text });
    let a = init_records();
    let b = client_records(cfg);
    let c = run_fetch_records(cfg, fetch);
    let ds = run_data_section(cfg, fetch);
    let d = build_records(cfg, ds);
    let e = match completion {
        Ok(t) => done_records(t@),
        Err(_) => Seq::<RecModel>::empty(),
    };
    let recs = run_records(raw, true, fetch, completion);
    assert(recs == a + b + c + d + e);
    lemma_count_tag_add(a + b + c + d, e, tag);
    lemma_count_tag_add(a + b + c, d, tag);
    lemma_count_tag_add(a + b, c, tag);
    lemma_count_tag_add(a, b, tag);
    assert(count_tag(a, tag) == 0) by {
        lemma_count_tag_zero(a, tag);
    }
    assert(count_tag(b, tag) == 0) by {
        assert(b =~= seq![
            plain_rec("SUCCESS"@, "Agent initialized"@),
            plain_rec("INFO"@, announcement(plan_start(cfg), plan_minutes(cfg))),
        ]);
        lemma_count_tag_zero(b, tag);
    }
    assert(count_tag(c, tag) == 1) by {
        assert(c =~= seq![plain_rec("ERROR"@, err_text@)]);
        lemma_count_tag_one(plain_rec("ERROR"@, err_text@), tag);
    }
    assert(count_tag(d, tag) == 0) by {
        lemma_count_tag_zero(d, tag);
    }
    assert(count_tag(e, tag) == 0) by {
        match completion {
            Ok(t) => {
                assert(e =~= seq![
                    plain_rec("SUCCESS"@, "Agent invoked"@),
                    rec_of("RESULT"@, Seq::empty(), t@),
                ]);
                lemma_count_tag_zero(e, tag);
            },
            Err(_) => {},
        }
    }
    assert(recs.contains(plain_rec("INFO"@, "Invoking agent..."@))) by {
        let k = a.len() + b.len() + c.len() + 3;
        assert(d[3] == plain_rec("INFO"@, "Invoking agent..."@));
        assert(recs[k as int] == d[3]);
    }
}

/// Malformed top-level input terminates the run before any record is
/// written; a client-construction failure terminates it after the one
/// initialization record. In neither case is a SUCCESS or PROMPT
/// record ever emitted.
pub proof fn lemma_stop_early_no_success(
    raw: RawConfig,
    client_ok: bool,
    fetch: Option<FetchOutcome>,
    completion: Result<String, String>,
)
    requires
        !raw_valid(raw) || !client_ok,
    ensures
        !raw_valid(raw) ==> run_records(raw, client_ok, fetch, completion)
            == Seq::<RecModel>::empty(),
        count_tag(run_records(raw, client_ok, fetch, completion), "SUCCESS"@) == 0,
        count_tag(run_records(raw, client_ok, fetch, completion), "PROMPT"@) == 0,
{
    reveal_strlit("INFO");
    reveal_strlit("SUCCESS");
    reveal_strlit("PROMPT");
    let recs = run_records(raw, client_ok, fetch, completion);
    if !raw_valid(raw) {
        assert(count_tag(recs, "SUCCESS"@) == 0);
        assert(count_tag(recs, "PROMPT"@) == 0);
    } else {
        assert(recs == init_records());
        assert("INFO"@.len() == 4 && "SUCCESS"@.len() == 7 && "PROMPT"@.len() == 6);
        assert("INFO"@ != "SUCCESS"@ && "INFO"@ != "PROMPT"@);
        lemma_count_tag_one(plain_rec("INFO"@, "Initializing agent..."@), "SUCCESS"@);
        lemma_count_tag_one(plain_rec("INFO"@, "Initializing agent..."@), "PROMPT"@);
    }
}

} // verus!
