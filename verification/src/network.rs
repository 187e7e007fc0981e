//! The network modes and the parameters that each one resolves to.

use crate::profile::CustomPipelineProfile;
use vstd::prelude::*;
use vstd::string::*;

verus! {

/// Which network an operation addresses.
#[derive(Debug, Clone, Copy, PartialEq, Eq)]
pub enum NetworkConfig {
    Mainnet,
    Testnet,
    Local,
}

/// The parameters of one network of one profile. Once selected they do
/// not change.
#[derive(Debug, Clone, PartialEq, Eq)]
pub struct Network {
    pub profile: String,
    pub chain_id: String,
    pub rpc_url: String,
    pub denom: String,
    pub gas_prices: Option<String>,
}

pub struct NetworkView {
    pub profile: Seq<char>,
    pub chain_id: Seq<char>,
    pub rpc_url: Seq<char>,
    pub denom: Seq<char>,
    pub gas_prices: Option<Seq<char>>,
}

impl View for Network {
    type V = NetworkView;

    open spec fn view(&self) -> NetworkView {
        NetworkView {
            profile: self.profile@,
            chain_id: self.chain_id@,
            rpc_url: self.rpc_url@,
            denom: self.denom@,
            gas_prices: match self.gas_prices {
                Some(g) => Some(g@),
                None => None,
            },
        }
    }
}

/// The parameters of a network mode for the profile called `profile`.
pub open spec fn params_of(profile: Seq<char>, mode: NetworkConfig) -> NetworkView {
    match mode {
        NetworkConfig::Mainnet => NetworkView {
            profile,
            chain_id: "juno-1"@,
            rpc_url: "https://juno-rpc.polkachu.com:443"@,
            denom: "ujuno"@,
            gas_prices: Some("0.002ujuno"@),
        },
        NetworkConfig::Testnet => NetworkView {
            profile,
            chain_id: "uni-6"@,
            rpc_url: "https://testnet.sentry.tm.injective.network:443"@,
            denom: "ujunox"@,
            gas_prices: Some("0.0002ujunox"@),
        },
        NetworkConfig::Local => NetworkView {
            profile,
            chain_id: "testing"@,
            rpc_url: "http://localhost:26657"@,
            denom: "ujunox"@,
            gas_prices: Some("0.000001ujunox"@),
        },
    }
}

/// The command line that starts a local node in a container.
pub open spec fn docker_command_of(persist_image: bool, container: Seq<char>) -> Seq<char> {
    "docker run"@ + (if persist_image {
        Seq::empty()
    } else {
        " --rm"@
    }) + " -it --name "@ + container
        + " -p 1317:1317 -p 26656:26656 -p 26657:26657 -e STAKE_TOKEN=ujunox -e UNSAFE_CORS=true ghcr.io/cosmoscontracts/juno:14.1.0 ./setup_and_run.sh juno16g2rahf5846rxzp3fwlswy08fz8ccuwk03k57y"@
}

impl CustomPipelineProfile {
    /// Resolves a network mode to the chain id, endpoint, denomination
    /// and gas price of this profile.
    pub fn network_params(&self, network_config: &NetworkConfig) -> (network: Network)
        ensures
            network@ == params_of(self.pipeline.name@, *network_config),
    {
        match network_config {
            NetworkConfig::Mainnet => Network {
                profile: self.get_profile_name(),
                chain_id: String::from_str("juno-1"),
                rpc_url: String::from_str("https://juno-rpc.polkachu.com:443"),
                denom: String::from_str("ujuno"),
                gas_prices: Some(String::from_str("0.002ujuno")),
            },
            NetworkConfig::Testnet => Network {
                profile: self.get_profile_name(),
                chain_id: String::from_str("uni-6"),
                rpc_url: String::from_str("https://testnet.sentry.tm.injective.network:443"),
                denom: String::from_str("ujunox"),
                gas_prices: Some(String::from_str("0.0002ujunox")),
            },
            NetworkConfig::Local => Network {
                profile: self.get_profile_name(),
                chain_id: String::from_str("testing"),
                rpc_url: String::from_str("http://localhost:26657"),
                denom: String::from_str("ujunox"),
                gas_prices: Some(String::from_str("0.000001ujunox")),
            },
        }
    }

    /// The command line that starts a local node in a container. The
    /// container is removed on exit unless `persist_image`; it is called
    /// `container`, or `default_container` where none is given.
    pub fn get_node_docker_command(
        &self,
        container: Option<String>,
        persist_image: bool,
        default_container: &str,
    ) -> (command: String)
        ensures
            command@ == docker_command_of(
                persist_image,
                match container {
                    Some(c) => c@,
                    None => default_container@,
                },
            ),
    {
        let mut command: String = String::from_str("docker run");
        if !persist_image {
            command.append(" --rm");
        }
        command.append(" -it --name ");
        match &container {
            Some(c) => command.append(c.as_str()),
            None => command.append(default_container),
        }
        command.append(
            " -p 1317:1317 -p 26656:26656 -p 26657:26657 -e STAKE_TOKEN=ujunox -e UNSAFE_CORS=true ghcr.io/cosmoscontracts/juno:14.1.0 ./setup_and_run.sh juno16g2rahf5846rxzp3fwlswy08fz8ccuwk03k57y",
        );
        assert(command@ =~= docker_command_of(
            persist_image,
            match container {
                Some(c) => c@,
                None => default_container@,
            },
        ));
        command
    }
}

} // verus!
