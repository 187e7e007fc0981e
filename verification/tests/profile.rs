use chain_pipeline::{
    CustomPipelineProfile, InputSource, Invocation, Network, NetworkConfig, Pipeline, PipelineConfig,
    PipelineError, TxResult,
};
use chain_pipeline::response::{Attribute, Event, LogEntry};

fn pipeline() -> Pipeline {
    Pipeline {
        name: "demo".to_string(),
        config: PipelineConfig {
            cli_executable: "chaind".to_string(),
            cli_contract_subcommand: "wasm".to_string(),
            cli_args: "--output json".to_string(),
            cli_args_tx: "--gas auto  -y".to_string(),
            cli_args_network: " --node http://localhost:26657 --chain-id testing ".to_string(),
            cli_args_store: "--instantiate-everybody true".to_string(),
        },
    }
}

fn profile() -> CustomPipelineProfile {
    CustomPipelineProfile::new(pipeline())
}

fn strings(items: &[&str]) -> Vec<String> {
    items.iter().map(|s| s.to_string()).collect()
}

const BASE: [&str; 2] = ["--output", "json"];
const TX: [&str; 3] = ["--gas", "auto", "-y"];
const NET: [&str; 4] = ["--node", "http://localhost:26657", "--chain-id", "testing"];

fn call(head: &[&str], groups: &[&[&str]], input: InputSource, in_project_root: bool) -> Invocation {
    let mut args = strings(head);
    for g in groups {
        args.extend(strings(g));
    }
    Invocation { executable: "chaind".to_string(), args, input, in_project_root }
}

#[test]
fn new_keeps_the_pipeline() {
    let p = profile();
    assert_eq!(p.pipeline, pipeline());
    assert_eq!(p.get_executable_name(), "chaind");
    assert_eq!(p.get_profile_name(), "demo");
}

#[test]
fn common_args_follow_the_flags() {
    let p = profile();
    assert_eq!(p.get_common_cli_args(false, false, false), strings(&BASE));
    assert_eq!(p.get_common_cli_args(true, false, false), strings(&[&BASE[..], &TX[..]].concat()));
    assert_eq!(p.get_common_cli_args(false, true, false), strings(&[&BASE[..], &NET[..]].concat()));
    assert_eq!(p.get_common_cli_args(true, true, false), strings(&[&BASE[..], &TX[..], &NET[..]].concat()));
}

#[test]
fn common_args_never_hold_the_store_group() {
    let p = profile();
    for tx in [false, true] {
        for network in [false, true] {
            assert_eq!(p.get_common_cli_args(tx, network, true), p.get_common_cli_args(tx, network, false));
        }
    }
}

#[test]
fn common_args_of_an_empty_configuration_are_empty() {
    let p = CustomPipelineProfile::new(Pipeline::template("blank"));
    assert_eq!(p.get_common_cli_args(true, true, true), Vec::<String>::new());
    assert_eq!(p.query_tx("H").args, strings(&["q", "tx", "H"]));
    assert_eq!(p.get_executable_name(), "");
}

#[test]
fn key_info_call() {
    let p = profile();
    assert_eq!(
        p.get_key_info("alice", None),
        call(&["keys", "show", "alice"], &[&BASE], InputSource::InheritedInteractive, false)
    );
    assert_eq!(
        p.get_key_info("alice", Some("pw")),
        call(&["keys", "show", "alice"], &[&BASE], InputSource::PipedSecret("pw".to_string()), false)
    );
}

#[test]
fn store_call() {
    let p = profile();
    assert_eq!(
        p.store_contract("artifacts/c.wasm", "alice", Some("pw")),
        call(
            &["tx", "wasm", "store", "artifacts/c.wasm", "--from", "alice"],
            &[&BASE, &TX, &NET],
            InputSource::PipedSecret("pw".to_string()),
            true
        )
    );
}

#[test]
fn instantiate_call() {
    let p = profile();
    assert_eq!(
        p.instantiate_contract("7", "alice", "bob", "my label", "{\"a\": 1}", Some("5ujunox".to_string()), None),
        call(
            &[
                "tx", "wasm", "instantiate", "7", "{\"a\": 1}", "--from", "alice", "--label", "my label",
                "--amount", "5ujunox", "--admin", "bob",
            ],
            &[&BASE, &TX, &NET],
            InputSource::InheritedInteractive,
            false
        )
    );
    let without_funds = p.instantiate_contract("7", "alice", "bob", "l", "{}", None, Some("pw"));
    assert_eq!(without_funds.args[9], "--amount");
    assert_eq!(without_funds.args[10], "");
    assert_eq!(without_funds.input, InputSource::PipedSecret("pw".to_string()));
}

#[test]
fn execute_call() {
    let p = profile();
    assert_eq!(
        p.execute_contract("juno1c", "{\"inc\":{}}", "alice", None),
        call(
            &["tx", "wasm", "execute", "juno1c", "{\"inc\":{}}", "--from", "alice"],
            &[&BASE, &TX, &NET],
            InputSource::InheritedInteractive,
            false
        )
    );
}

#[test]
fn migrate_call() {
    let p = profile();
    assert_eq!(
        p.migrate_contract("juno1c", "8", "alice", "{}", Some("pw")),
        call(
            &["tx", "wasm", "migrate", "juno1c", "8", "{}", "--from", "alice"],
            &[&BASE, &TX, &NET],
            InputSource::PipedSecret("pw".to_string()),
            false
        )
    );
}

#[test]
fn query_calls_are_network_calls_without_a_secret() {
    let p = profile();
    assert_eq!(
        p.query_tx("ABC"),
        call(&["q", "tx", "ABC"], &[&BASE, &NET], InputSource::InheritedInteractive, false)
    );
    assert_eq!(
        p.query_contract_smart("juno1c", "{\"get\":{}}"),
        call(
            &["q", "wasm", "contract-state", "smart", "juno1c", "{\"get\":{}}"],
            &[&BASE, &NET],
            InputSource::InheritedInteractive,
            false
        )
    );
}

#[test]
fn an_argument_with_whitespace_stays_one_argument() {
    let p = profile();
    let inv = p.execute_contract("c", "{\"a\": \"b c\"}", "alice", None);
    assert_eq!(inv.args[4], "{\"a\": \"b c\"}");
    assert_eq!(inv.args.len(), 7 + 2 + 3 + 4);
}

#[test]
fn network_params_by_mode() {
    let p = profile();
    assert_eq!(
        p.network_params(&NetworkConfig::Mainnet),
        Network {
            profile: "demo".to_string(),
            chain_id: "juno-1".to_string(),
            rpc_url: "https://juno-rpc.polkachu.com:443".to_string(),
            denom: "ujuno".to_string(),
            gas_prices: Some("0.002ujuno".to_string()),
        }
    );
    assert_eq!(
        p.network_params(&NetworkConfig::Testnet),
        Network {
            profile: "demo".to_string(),
            chain_id: "uni-6".to_string(),
            rpc_url: "https://testnet.sentry.tm.injective.network:443".to_string(),
            denom: "ujunox".to_string(),
            gas_prices: Some("0.0002ujunox".to_string()),
        }
    );
    assert_eq!(
        p.network_params(&NetworkConfig::Local),
        Network {
            profile: "demo".to_string(),
            chain_id: "testing".to_string(),
            rpc_url: "http://localhost:26657".to_string(),
            denom: "ujunox".to_string(),
            gas_prices: Some("0.000001ujunox".to_string()),
        }
    );
}

#[test]
fn docker_command() {
    let p = profile();
    let tail = " -p 1317:1317 -p 26656:26656 -p 26657:26657 -e STAKE_TOKEN=ujunox -e UNSAFE_CORS=true ghcr.io/cosmoscontracts/juno:14.1.0 ./setup_and_run.sh juno16g2rahf5846rxzp3fwlswy08fz8ccuwk03k57y";
    assert_eq!(
        p.get_node_docker_command(None, false, "warp_node"),
        format!("docker run --rm -it --name warp_node{}", tail)
    );
    assert_eq!(
        p.get_node_docker_command(Some("mine".to_string()), true, "warp_node"),
        format!("docker run -it --name mine{}", tail)
    );
}

#[test]
fn initialized_address_through_the_profile() {
    let p = profile();
    let tx = TxResult {
        code: 0,
        tx_hash: "H".to_string(),
        raw_log: String::new(),
        logs: vec![LogEntry {
            events: vec![Event {
                attributes: vec![Attribute { key: "_contract_address".to_string(), value: "juno1new".to_string() }],
            }],
        }],
    };
    assert_eq!(p.get_initialized_address(&tx), Ok("juno1new".to_string()));
    let empty = TxResult { code: 0, tx_hash: "H".to_string(), raw_log: String::new(), logs: vec![] };
    assert_eq!(p.get_initialized_address(&empty), Err(PipelineError::EventShapeMismatch));
}
