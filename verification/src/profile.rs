//! The configuration-driven chain profile: the executable and the
//! argument groups of a pipeline configuration, bound to the operations
//! of the engine.

use crate::args::{compose_args, composed, strings_view};
use crate::config::Pipeline;
use crate::error::PipelineError;
use crate::invocation::{input_for, opt_string, opt_text, InputSource, InputSourceView, Invocation, InvocationView};
use crate::response::{initialized_address_of, TxResult};
use crate::error::PipelineErrorView;
use vstd::prelude::*;
use vstd::string::*;

verus! {

/// A chain profile whose executable and argument groups come from a
/// pipeline configuration. It holds nothing else: no connection, no
/// session.
pub struct CustomPipelineProfile {
    pub pipeline: Pipeline,
}

impl CustomPipelineProfile {
    pub fn new(pipeline: Pipeline) -> (profile: Self)
        ensures
            profile.pipeline == pipeline,
    {
        Self { pipeline }
    }

    /// The name or path of the chain's executable.
    pub fn get_executable_name(&self) -> (name: String)
        ensures
            name@ == self.pipeline.config.cli_executable@,
    {
        self.pipeline.config.cli_executable.clone()
    }

    /// The name of the profile.
    pub fn get_profile_name(&self) -> (name: String)
        ensures
            name@ == self.pipeline.name@,
    {
        self.pipeline.name.clone()
    }

    /// The arguments that the configuration adds to a call.
    pub open spec fn common_args(&self, tx: bool, network: bool) -> Seq<Seq<char>> {
        composed(
            self.pipeline.config.cli_args@,
            self.pipeline.config.cli_args_tx@,
            self.pipeline.config.cli_args_network@,
            tx,
            network,
        )
    }

    /// The configured arguments for a call: the base group, then the
    /// transaction group if `tx`, then the network group if `network`.
    /// The store group is never added, whatever `store` says: the flag is
    /// accepted so that a store call can say what it is, and has no
    /// effect.
    pub fn get_common_cli_args(&self, tx: bool, network: bool, store: bool) -> (out: Vec<String>)
        ensures
            strings_view(out@) == self.common_args(tx, network),
    {
        compose_args(
            self.pipeline.config.cli_args.as_str(),
            self.pipeline.config.cli_args_tx.as_str(),
            self.pipeline.config.cli_args_network.as_str(),
            tx,
            network,
        )
    }

    /// A call of the executable: the operation's own arguments, then the
    /// configured ones.
    pub open spec fn call(
        &self,
        head: Seq<Seq<char>>,
        tx: bool,
        network: bool,
        input: InputSourceView,
        in_project_root: bool,
    ) -> InvocationView {
        InvocationView {
            executable: self.pipeline.config.cli_executable@,
            args: head + self.common_args(tx, network),
            input,
            in_project_root,
        }
    }

    fn invocation(
        &self,
        head: Vec<String>,
        tx: bool,
        network: bool,
        store: bool,
        input: InputSource,
        in_project_root: bool,
    ) -> (out: Invocation)
        ensures
            out@ == self.call(strings_view(head@), tx, network, input@, in_project_root),
    {
        let mut args: Vec<String> = head;
        let mut common: Vec<String> = self.get_common_cli_args(tx, network, store);
        let ghost added = common@;
        args.append(&mut common);
        assert(strings_view(args@) =~= strings_view(head@) + strings_view(added));
        Invocation { executable: self.get_executable_name(), args, input, in_project_root }
    }

    /// The call that looks up an account's key.
    pub open spec fn key_info_call(&self, account_id: Seq<char>, password: Option<Seq<char>>) -> InvocationView {
        self.call(seq!["keys"@, "show"@, account_id], false, false, input_for(password), false)
    }

    /// The call that looks up an account's key; with a password, the
    /// password unlocks the keystore through standard input.
    pub fn get_key_info(&self, account_id: &str, password: Option<&str>) -> (out: Invocation)
        ensures
            out@ == self.key_info_call(account_id@, opt_text(password)),
    {
        let mut head: Vec<String> = Vec::new();
        head.push(String::from_str("keys"));
        head.push(String::from_str("show"));
        head.push(String::from_str(account_id));
        assert(strings_view(head@) =~= seq!["keys"@, "show"@, account_id@]);
        self.invocation(head, false, false, false, InputSource::from_secret(password), false)
    }

    /// The submit call of a store operation.
    pub open spec fn store_call(
        &self,
        contract: Seq<char>,
        from: Seq<char>,
        password: Option<Seq<char>>,
    ) -> InvocationView {
        self.call(
            seq!["tx"@, "wasm"@, "store"@, contract, "--from"@, from],
            true,
            true,
            input_for(password),
            true,
        )
    }

    /// The submit call that uploads the artifact at `contract`. It runs
    /// in the project's root directory.
    pub fn store_contract(&self, contract: &str, from: &str, password: Option<&str>) -> (out:
        Invocation)
        ensures
            out@ == self.store_call(contract@, from@, opt_text(password)),
    {
        let mut head: Vec<String> = Vec::new();
        head.push(String::from_str("tx"));
        head.push(String::from_str("wasm"));
        head.push(String::from_str("store"));
        head.push(String::from_str(contract));
        head.push(String::from_str("--from"));
        head.push(String::from_str(from));
        assert(strings_view(head@) =~= seq!["tx"@, "wasm"@, "store"@, contract@, "--from"@, from@]);
        self.invocation(head, true, true, true, InputSource::from_secret(password), true)
    }

    /// The submit call of an instantiate operation. Without funds the
    /// amount is the empty string.
    pub open spec fn instantiate_call(
        &self,
        code_id: Seq<char>,
        from: Seq<char>,
        admin: Seq<char>,
        label: Seq<char>,
        init_msg: Seq<char>,
        coins: Option<Seq<char>>,
        password: Option<Seq<char>>,
    ) -> InvocationView {
        self.call(
            seq![
                "tx"@,
                "wasm"@,
                "instantiate"@,
                code_id,
                init_msg,
                "--from"@,
                from,
                "--label"@,
                label,
                "--amount"@,
                match coins {
                    Some(c) => c,
                    None => Seq::empty(),
                },
                "--admin"@,
                admin,
            ],
            true,
            true,
            input_for(password),
            false,
        )
    }

    /// The submit call that instantiates the code `code_id`.
    pub fn instantiate_contract(
        &self,
        code_id: &str,
        from: &str,
        admin: &str,
        label: &str,
        init_msg: &str,
        coins: Option<String>,
        password: Option<&str>,
    ) -> (out: Invocation)
        ensures
            out@ == self.instantiate_call(
                code_id@,
                from@,
                admin@,
                label@,
                init_msg@,
                opt_string(coins),
                opt_text(password),
            ),
    {
        let ghost funds = opt_string(coins);
        let amount: String = match coins {
            Some(c) => c,
            None => String::new(),
        };
        let ghost amount_view = amount@;
        assert(amount_view == match funds {
            Some(c) => c,
            None => Seq::empty(),
        });
        let mut head: Vec<String> = Vec::new();
        head.push(String::from_str("tx"));
        head.push(String::from_str("wasm"));
        head.push(String::from_str("instantiate"));
        head.push(String::from_str(code_id));
        head.push(String::from_str(init_msg));
        head.push(String::from_str("--from"));
        head.push(String::from_str(from));
        head.push(String::from_str("--label"));
        head.push(String::from_str(label));
        head.push(String::from_str("--amount"));
        head.push(amount);
        head.push(String::from_str("--admin"));
        head.push(String::from_str(admin));
        assert(strings_view(head@) =~= seq![
            "tx"@,
            "wasm"@,
            "instantiate"@,
            code_id@,
            init_msg@,
            "--from"@,
            from@,
            "--label"@,
            label@,
            "--amount"@,
            amount_view,
            "--admin"@,
            admin@,
        ]);
        let out = self.invocation(
            head,
            true,
            true,
            false,
            InputSource::from_secret(password),
            false,
        );
        assert(out@.args =~= self.instantiate_call(
            code_id@,
            from@,
            admin@,
            label@,
            init_msg@,
            funds,
            opt_text(password),
        ).args);
        out
    }

    /// The submit call of an execute operation.
    pub open spec fn execute_call(
        &self,
        contract_address: Seq<char>,
        msg: Seq<char>,
        from: Seq<char>,
        password: Option<Seq<char>>,
    ) -> InvocationView {
        self.call(
            seq!["tx"@, "wasm"@, "execute"@, contract_address, msg, "--from"@, from],
            true,
            true,
            input_for(password),
            false,
        )
    }

    /// The submit call that executes `msg` on a contract.
    pub fn execute_contract(
        &self,
        contract_address: &str,
        msg: &str,
        from: &str,
        password: Option<&str>,
    ) -> (out: Invocation)
        ensures
            out@ == self.execute_call(contract_address@, msg@, from@, opt_text(password)),
    {
        let mut head: Vec<String> = Vec::new();
        head.push(String::from_str("tx"));
        head.push(String::from_str("wasm"));
        head.push(String::from_str("execute"));
        head.push(String::from_str(contract_address));
        head.push(String::from_str(msg));
        head.push(String::from_str("--from"));
        head.push(String::from_str(from));
        assert(strings_view(head@) =~= seq![
            "tx"@,
            "wasm"@,
            "execute"@,
            contract_address@,
            msg@,
            "--from"@,
            from@,
        ]);
        self.invocation(head, true, true, false, InputSource::from_secret(password), false)
    }

    /// The submit call of a migrate operation.
    pub open spec fn migrate_call(
        &self,
        contract_address: Seq<char>,
        code_id: Seq<char>,
        from: Seq<char>,
        migrate_msg: Seq<char>,
        password: Option<Seq<char>>,
    ) -> InvocationView {
        self.call(
            seq![
                "tx"@,
                "wasm"@,
                "migrate"@,
                contract_address,
                code_id,
                migrate_msg,
                "--from"@,
                from,
            ],
            true,
            true,
            input_for(password),
            false,
        )
    }

    /// The submit call that migrates a contract to the code `code_id`.
    pub fn migrate_contract(
        &self,
        contract_address: &str,
        code_id: &str,
        from: &str,
        migrate_msg: &str,
        password: Option<&str>,
    ) -> (out: Invocation)
        ensures
            out@ == self.migrate_call(
                contract_address@,
                code_id@,
                from@,
                migrate_msg@,
                opt_text(password),
            ),
    {
        let mut head: Vec<String> = Vec::new();
        head.push(String::from_str("tx"));
        head.push(String::from_str("wasm"));
        head.push(String::from_str("migrate"));
        head.push(String::from_str(contract_address));
        head.push(String::from_str(code_id));
        head.push(String::from_str(migrate_msg));
        head.push(String::from_str("--from"));
        head.push(String::from_str(from));
        assert(strings_view(head@) =~= seq![
            "tx"@,
            "wasm"@,
            "migrate"@,
            contract_address@,
            code_id@,
            migrate_msg@,
            "--from"@,
            from@,
        ]);
        self.invocation(head, true, true, false, InputSource::from_secret(password), false)
    }

    /// The call that asks the chain for a transaction by its hash.
    pub open spec fn query_tx_call(&self, tx_hash: Seq<char>) -> InvocationView {
        self.call(
            seq!["q"@, "tx"@, tx_hash],
            false,
            true,
            InputSourceView::InheritedInteractive,
            false,
        )
    }

    /// The call that asks the chain for a transaction by its hash: a
    /// network call, without the transaction group.
    pub fn query_tx(&self, tx_hash: &str) -> (out: Invocation)
        ensures
            out@ == self.query_tx_call(tx_hash@),
    {
        let mut head: Vec<String> = Vec::new();
        head.push(String::from_str("q"));
        head.push(String::from_str("tx"));
        head.push(String::from_str(tx_hash));
        assert(strings_view(head@) =~= seq!["q"@, "tx"@, tx_hash@]);
        self.invocation(head, false, true, false, InputSource::InheritedInteractive, false)
    }

    /// The call that queries a contract's state.
    pub open spec fn query_smart_call(&self, contract: Seq<char>, query: Seq<char>) -> InvocationView {
        self.call(
            seq!["q"@, "wasm"@, "contract-state"@, "smart"@, contract, query],
            false,
            true,
            InputSourceView::InheritedInteractive,
            false,
        )
    }

    /// The call that sends `query` to a contract.
    pub fn query_contract_smart(&self, contract: &str, query: &str) -> (out: Invocation)
        ensures
            out@ == self.query_smart_call(contract@, query@),
    {
        let mut head: Vec<String> = Vec::new();
        head.push(String::from_str("q"));
        head.push(String::from_str("wasm"));
        head.push(String::from_str("contract-state"));
        head.push(String::from_str("smart"));
        head.push(String::from_str(contract));
        head.push(String::from_str(query));
        assert(strings_view(head@) =~= seq![
            "q"@,
            "wasm"@,
            "contract-state"@,
            "smart"@,
            contract@,
            query@,
        ]);
        self.invocation(head, false, true, false, InputSource::InheritedInteractive, false)
    }

    /// The address of the contract that a confirmed instantiation made.
    pub fn get_initialized_address(&self, tx: &TxResult) -> (out: Result<String, PipelineError>)
        ensures
            out is Ok == initialized_address_of(tx@) is Some,
            out matches Ok(a) ==> initialized_address_of(tx@) == Some(a@),
            out matches Err(e) ==> e@ == PipelineErrorView::EventShapeMismatch,
    {
        tx.initialized_address()
    }
}

} // verus!
