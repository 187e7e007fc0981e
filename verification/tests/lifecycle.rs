use chain_pipeline::lifecycle::{
    judge, read_key_info, read_smart_query, tool_error, PollReport, CONFIRMATION_DELAY_MS,
    CONFIRMATION_RETRIES,
};
use chain_pipeline::{
    CustomPipelineProfile, InputSource, Json, Pipeline, PipelineConfig, PipelineError, ProcessEvent,
    ProcessOutput, TxResult, TxState, TxStep,
};

fn profile() -> CustomPipelineProfile {
    CustomPipelineProfile::new(Pipeline {
        name: "demo".to_string(),
        config: PipelineConfig {
            cli_executable: "chaind".to_string(),
            cli_contract_subcommand: "wasm".to_string(),
            cli_args: "--output json".to_string(),
            cli_args_tx: "--gas auto -y".to_string(),
            cli_args_network: "--node http://localhost:26657 --chain-id testing".to_string(),
            cli_args_store: "--instantiate-everybody true".to_string(),
        },
    })
}

fn exited(stdout: &str, stderr: &str) -> ProcessEvent {
    ProcessEvent::Exited(ProcessOutput { stdout: stdout.as_bytes().to_vec(), stderr: stderr.as_bytes().to_vec() })
}

fn response(code: u32, hash: &str, raw_log: &str) -> String {
    format!("{{\"code\":{},\"txhash\":\"{}\",\"raw_log\":\"{}\",\"logs\":[]}}", code, hash, raw_log)
}

fn tx(code: u32, hash: &str, raw_log: &str) -> TxResult {
    TxResult { code, tx_hash: hash.to_string(), raw_log: raw_log.to_string(), logs: vec![] }
}

#[test]
fn constants_of_the_poller() {
    assert_eq!(CONFIRMATION_RETRIES, 10);
    assert_eq!(CONFIRMATION_DELAY_MS, 1958);
}

#[test]
fn judge_passes_code_zero_and_fails_any_other() {
    assert_eq!(judge(Ok(tx(0, "H", "log"))), Ok(tx(0, "H", "log")));
    assert_eq!(judge(Ok(tx(1, "H", "log"))), Err(PipelineError::TransactionFailed("H".to_string(), "log".to_string())));
    assert_eq!(
        judge(Ok(tx(u32::MAX, "", ""))),
        Err(PipelineError::TransactionFailed(String::new(), String::new()))
    );
    assert_eq!(judge(Err(PipelineError::ResponseDecodeFailure)), Err(PipelineError::ResponseDecodeFailure));
}

#[test]
fn submit_with_code_zero_goes_on_to_confirmation() {
    let p = profile();
    let step = p.after_submit(Ok(tx(0, "ABC", "")));
    assert_eq!(
        step,
        TxStep::Run {
            state: TxState::Polling { tx_hash: "ABC".to_string(), retries_left: 10 },
            invocation: p.query_tx("ABC"),
            delay_ms: 0,
        }
    );
}

#[test]
fn submit_with_another_code_fails_at_once() {
    let p = profile();
    for code in [1u32, 4, 5, 111, u32::MAX] {
        let step = p.after_submit(Ok(tx(code, "ABC", "why")));
        assert_eq!(
            step,
            TxStep::Done(Err(PipelineError::TransactionFailed("ABC".to_string(), "why".to_string())))
        );
    }
}

#[test]
fn submit_that_does_not_decode_fails_at_once() {
    let p = profile();
    assert_eq!(p.advance(TxState::Submitted, exited("", "")), TxStep::Done(Err(PipelineError::ResponseDecodeFailure)));
    assert_eq!(
        p.advance(TxState::Submitted, exited("panic: oops", "")),
        TxStep::Done(Err(PipelineError::ResponseDecodeFailure))
    );
}

#[test]
fn submit_ignores_standard_error() {
    let p = profile();
    let step = p.advance(TxState::Submitted, exited(&response(0, "ABC", ""), "gas estimate: 1"));
    assert!(matches!(step, TxStep::Run { delay_ms: 0, .. }));
}

#[test]
fn spawn_failure_ends_the_operation() {
    let p = profile();
    let e = ProcessEvent::SpawnFailed("No such file or directory".to_string());
    assert_eq!(
        p.advance(TxState::Submitted, e.clone()),
        TxStep::Done(Err(PipelineError::ProcessSpawnFailure("No such file or directory".to_string())))
    );
    assert_eq!(
        p.advance(TxState::Polling { tx_hash: "H".to_string(), retries_left: 3 }, e),
        TxStep::Done(Err(PipelineError::ProcessSpawnFailure("No such file or directory".to_string())))
    );
}

#[test]
fn poll_retries_on_standard_error_while_retries_remain() {
    let p = profile();
    let step = p.advance(
        TxState::Polling { tx_hash: "H".to_string(), retries_left: 10 },
        exited(&response(0, "H", ""), "tx not found"),
    );
    assert_eq!(
        step,
        TxStep::Run {
            state: TxState::Polling { tx_hash: "H".to_string(), retries_left: 9 },
            invocation: p.query_tx("H"),
            delay_ms: 1958,
        }
    );
}

#[test]
fn poll_decodes_once_the_budget_is_spent() {
    let p = profile();
    let state = TxState::Polling { tx_hash: "H".to_string(), retries_left: 0 };
    assert_eq!(
        p.advance(state.clone(), exited(&response(0, "H", ""), "still complaining")),
        TxStep::Done(Ok(tx(0, "H", "")))
    );
    assert_eq!(
        p.advance(state.clone(), exited("", "tx not found")),
        TxStep::Done(Err(PipelineError::ResponseDecodeFailure))
    );
    assert_eq!(
        p.advance(state, exited(&response(7, "H", "bad"), "")),
        TxStep::Done(Err(PipelineError::TransactionFailed("H".to_string(), "bad".to_string())))
    );
}

#[test]
fn poll_fails_on_a_non_zero_code() {
    let p = profile();
    assert_eq!(
        p.after_poll("H".to_string(), 10, &ProcessOutput { stdout: response(5, "H", "insufficient funds").into_bytes(), stderr: vec![] }),
        TxStep::Done(Err(PipelineError::TransactionFailed("H".to_string(), "insufficient funds".to_string())))
    );
}

#[test]
fn poller_three_failures_then_success() {
    let p = profile();
    let events = vec![
        exited("", "tx (ABC) not found"),
        exited("", "tx (ABC) not found"),
        exited("", "tx (ABC) not found"),
        exited(&response(0, "ABC", ""), ""),
    ];
    assert_eq!(
        p.replay_confirmation("ABC", &events),
        PollReport { queries: 4, sleeps: 3, retries_left: 7, outcome: Some(Ok(tx(0, "ABC", ""))) }
    );
}

#[test]
fn poller_ten_failures_decode_the_eleventh_answer() {
    let p = profile();
    let mut events: Vec<ProcessEvent> = (0..10).map(|_| exited("", "not found")).collect();
    assert_eq!(
        p.replay_confirmation("ABC", &events),
        PollReport { queries: 10, sleeps: 10, retries_left: 0, outcome: None }
    );
    events.push(exited("", "not found"));
    assert_eq!(
        p.replay_confirmation("ABC", &events),
        PollReport { queries: 11, sleeps: 10, retries_left: 0, outcome: Some(Err(PipelineError::ResponseDecodeFailure)) }
    );
    events.pop();
    events.push(exited(&response(0, "ABC", ""), "not found"));
    events.push(exited("never asked", ""));
    assert_eq!(
        p.replay_confirmation("ABC", &events),
        PollReport { queries: 11, sleeps: 10, retries_left: 0, outcome: Some(Ok(tx(0, "ABC", ""))) }
    );
}

#[test]
fn poller_immediate_answer_costs_nothing() {
    let p = profile();
    assert_eq!(
        p.replay_confirmation("ABC", &vec![exited(&response(0, "ABC", ""), "")]),
        PollReport { queries: 1, sleeps: 0, retries_left: 10, outcome: Some(Ok(tx(0, "ABC", ""))) }
    );
    assert_eq!(
        p.replay_confirmation("ABC", &vec![]),
        PollReport { queries: 0, sleeps: 0, retries_left: 10, outcome: None }
    );
}

#[test]
fn poller_stops_at_a_spawn_failure() {
    let p = profile();
    let events = vec![exited("", "not found"), ProcessEvent::SpawnFailed("gone".to_string()), exited("{}", "")];
    assert_eq!(
        p.replay_confirmation("ABC", &events),
        PollReport {
            queries: 2,
            sleeps: 1,
            retries_left: 9,
            outcome: Some(Err(PipelineError::ProcessSpawnFailure("gone".to_string()))),
        }
    );
}

#[test]
fn store_contract_returns_the_confirmed_result() {
    let p = profile();
    let submit = p.store_contract("artifacts/c.wasm", "alice", Some("hunter2"));
    assert_eq!(submit.executable, "chaind");
    assert_eq!(submit.input.payload(), Some("hunter2\n".to_string()));
    let step = p.advance(TxState::Submitted, exited(&response(0, "ABC", ""), ""));
    let (state, invocation, delay_ms) = match step {
        TxStep::Run { state, invocation, delay_ms } => (state, invocation, delay_ms),
        TxStep::Done(r) => panic!("ended early: {:?}", r),
    };
    assert_eq!(delay_ms, 0);
    assert_eq!(invocation, p.query_tx("ABC"));
    assert_eq!(invocation.input, InputSource::InheritedInteractive);
    let done = p.advance(state, exited(&response(0, "ABC", "[]"), ""));
    assert_eq!(done, TxStep::Done(Ok(tx(0, "ABC", "[]"))));
}

#[test]
fn instantiate_contract_out_of_gas_fails_without_confirmation() {
    let p = profile();
    let submit = p.instantiate_contract("7", "alice", "alice", "my label", "{}", None, None);
    assert_eq!(submit.input.payload(), None);
    let step = p.advance(TxState::Submitted, exited(&response(4, "", "out of gas"), ""));
    assert_eq!(
        step,
        TxStep::Done(Err(PipelineError::TransactionFailed(String::new(), "out of gas".to_string())))
    );
}

#[test]
fn query_contract_smart_surfaces_standard_error() {
    let out = read_smart_query(exited("{\"data\":1}", "rpc error: ..."));
    assert_eq!(out, Err(PipelineError::UnderlyingToolError("rpc error: ...".to_string())));
}

#[test]
fn smart_query_returns_the_document() {
    let out = read_smart_query(exited("{\"data\":{\"count\":3}}", "")).unwrap();
    let count = out.get("data").and_then(|d| d.get("count"));
    assert_eq!(count, Some(&Json::Number("3".to_string())));
    assert_eq!(read_smart_query(exited("", "")), Err(PipelineError::ResponseDecodeFailure));
    assert_eq!(
        read_smart_query(ProcessEvent::SpawnFailed("x".to_string())),
        Err(PipelineError::ProcessSpawnFailure("x".to_string()))
    );
}

#[test]
fn key_lookup_reads_output_or_fails() {
    let good = "{\"name\":\"alice\",\"type\":\"local\",\"address\":\"juno1abc\",\"pubkey\":\"pk\"}";
    let info = read_key_info(exited(good, "")).unwrap();
    assert_eq!(info.address, "juno1abc");
    assert_eq!(info.name, "alice");
    assert_eq!(info.kind, "local");
    assert_eq!(info.pubkey, "pk");
    assert_eq!(read_key_info(exited(good, "Error: key not found")), Err(PipelineError::UnderlyingToolError("Error: key not found".to_string())));
    assert_eq!(read_key_info(exited("{}", "")), Err(PipelineError::ResponseDecodeFailure));
    assert_eq!(
        read_key_info(ProcessEvent::SpawnFailed("denied".to_string())),
        Err(PipelineError::ProcessSpawnFailure("denied".to_string()))
    );
}

#[test]
fn tool_error_decodes_utf8_or_reports() {
    assert_eq!(tool_error("Fehler: größer €".as_bytes().to_vec()), PipelineError::UnderlyingToolError("Fehler: größer €".to_string()));
    assert_eq!(tool_error(vec![b'a', 0xff]), PipelineError::ResponseDecodeFailure);
    assert_eq!(tool_error(vec![0xed, 0xa0, 0x80]), PipelineError::ResponseDecodeFailure);
}

#[test]
fn secret_payload_is_the_secret_and_one_line_feed() {
    assert_eq!(InputSource::from_secret(Some("pw")), InputSource::PipedSecret("pw".to_string()));
    assert_eq!(InputSource::from_secret(Some("pw")).payload(), Some("pw\n".to_string()));
    assert_eq!(InputSource::from_secret(Some("")).payload(), Some("\n".to_string()));
    assert_eq!(InputSource::from_secret(Some("a b\n")).payload(), Some("a b\n\n".to_string()));
    assert_eq!(InputSource::from_secret(None), InputSource::InheritedInteractive);
    assert_eq!(InputSource::from_secret(None).payload(), None);
}
