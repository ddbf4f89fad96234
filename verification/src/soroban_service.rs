//! Building, signing and submitting transactions for the ledger network.
//!
//! The network client and the signer here stand in for the real ones: they
//! answer without reaching a network or a key store.

use std::sync::Arc;
use vstd::prelude::*;
use vstd::string::*;
use crate::api_error::ApiError;
use crate::config::{Config, StellarNetwork};
use crate::models::{BuildTransactionDto, SignedTransactionResponse, TransactionStatus};

verus! {

/// A client of one ledger network.
pub struct StellarClient {
    network_passphrase: String,
    rpc_url: String,
}

/// The service through which transactions reach the ledger network.
#[derive(Clone)]
pub struct SorobanService {
    config: Config,
    client: Arc<StellarClient>,
}

/// Makes a transaction of a contract call.
pub trait TransactionBuilder {
    /// The transaction, as base64 XDR.
    fn build_transaction(&self, dto: BuildTransactionDto) -> Result<String, ApiError>;
}

/// Signs transactions.
pub trait Signer {
    /// The signed transaction, as base64 XDR.
    fn sign_transaction(&self, tx_xdr: &str) -> Result<String, ApiError>;
}

/// A signer that holds the key itself.
pub struct CustodialSigner {
    secret_key: String,
}

/// Formats the arguments of a contract call with std's `Debug`, as
/// `format!("{:?}", ..)` does.
#[verifier::external_body]
fn debug_args(args: &Vec<serde_json::Value>) -> (r: String) {
    format!("{:?}", args)
}

impl StellarClient {
    /// A client of the network with the given passphrase, reached at
    /// `rpc_url`.
    pub fn new(network_passphrase: String, rpc_url: String) -> (r: Self)
        ensures
            r.network_passphrase() == network_passphrase@,
            r.rpc_url() == rpc_url@,
    {
        StellarClient { network_passphrase, rpc_url }
    }

    /// The passphrase of the client's network.
    pub closed spec fn network_passphrase(&self) -> Seq<char> {
        self.network_passphrase@
    }

    /// The address at which the client reaches the network.
    pub closed spec fn rpc_url(&self) -> Seq<char> {
        self.rpc_url@
    }

    /// Submits a transaction and answers with its hash. This client accepts
    /// every transaction under one and the same hash.
    pub fn submit_transaction(&self, _tx_envelope: &str) -> (r: Result<String, String>)
        ensures
            r matches Ok(hash) && hash@ == "mock_tx_hash"@,
    {
        Ok(String::from_str("mock_tx_hash"))
    }
}

impl CustodialSigner {
    /// A signer that signs with `secret_key`.
    pub fn new(secret_key: String) -> (r: Self)
        ensures
            r.secret_key() == secret_key@,
    {
        CustodialSigner { secret_key }
    }

    /// The key that the signer signs with.
    pub closed spec fn secret_key(&self) -> Seq<char> {
        self.secret_key@
    }
}

impl Signer for CustodialSigner {
    /// Marks the transaction as signed by this signer.
    fn sign_transaction(&self, tx_xdr: &str) -> (r: Result<String, ApiError>)
        ensures
            r matches Ok(signed) && signed@ == tx_xdr@ + "_signed_by_custodial"@,
    {
        Ok(String::from_str(tx_xdr).concat("_signed_by_custodial"))
    }
}

impl SorobanService {
    /// The service for the network that `config` names.
    pub fn new(config: Config) -> (r: Self)
        ensures
            r.config() == config,
            r.client().network_passphrase() == config.stellar_network.passphrase@,
            r.client().rpc_url() == config.stellar_network.rpc_url@,
    {
        let client = Arc::new(
            StellarClient::new(
                config.stellar_network.passphrase.clone(),
                config.stellar_network.rpc_url.clone(),
            ),
        );
        SorobanService { config, client }
    }

    /// The settings that the service was made with.
    pub closed spec fn config(&self) -> Config {
        self.config
    }

    /// The client through which the service reaches the network.
    pub closed spec fn client(&self) -> StellarClient {
        *self.client
    }

    /// The network that the service submits to.
    pub fn get_network_config(&self) -> (r: &StellarNetwork)
        ensures
            *r == self.config().stellar_network,
    {
        &self.config.stellar_network
    }

    /// What the service answers when the network has answered a submission
    /// with `outcome`: a pending transaction under the hash that the network
    /// gave, or the network's failure as a failure of the service.
    pub fn submission_response(&self, outcome: Result<String, String>) -> (r: Result<
        SignedTransactionResponse,
        ApiError,
    >)
        ensures
            match outcome {
                Ok(hash) => r matches Ok(response) && response.tx_hash == hash && response.status
                    == TransactionStatus::Pending,
                Err(error) => r matches Err(ApiError::InternalServerError(message)) && message@
                    == "Blockchain Error: "@ + error@,
            },
    {
        match outcome {
            Ok(hash) => Ok(
                SignedTransactionResponse { tx_hash: hash, status: TransactionStatus::Pending },
            ),
            Err(e) => Err(self.normalize_error(e)),
        }
    }

    /// Submits a signed transaction through the service's client.
    pub fn submit_transaction(&self, signed_tx_xdr: String) -> (r: Result<
        SignedTransactionResponse,
        ApiError,
    >)
        ensures
            r matches Ok(response) && response.tx_hash@ == "mock_tx_hash"@ && response.status
                == TransactionStatus::Pending,
    {
        let outcome = self.client.submit_transaction(signed_tx_xdr.as_str());
        self.submission_response(outcome)
    }

    /// Reports a failure of the network as a failure of the service.
    pub fn normalize_error(&self, error: String) -> (r: ApiError)
        ensures
            r matches ApiError::InternalServerError(message) && message@ == "Blockchain Error: "@
                + error@,
    {
        ApiError::InternalServerError(
            String::from_str("Blockchain Error: ").concat(error.as_str()),
        )
    }
}

impl TransactionBuilder for SorobanService {
    /// Names the contract, the method and the arguments in a text that
    /// stands for the transaction.
    fn build_transaction(&self, dto: BuildTransactionDto) -> (r: Result<String, ApiError>)
        ensures
            r matches Ok(tx_xdr) && exists|args: Seq<char>|
                tx_xdr@ == "mock_xdr_invoke_"@ + dto.contract_id@ + "_"@ + dto.method@ + "_"@
                    + args,
    {
        let args = debug_args(&dto.args);
        let tx_xdr = String::from_str("mock_xdr_invoke_").concat(dto.contract_id.as_str()).concat(
            "_",
        ).concat(dto.method.as_str()).concat("_").concat(args.as_str());
        assert(tx_xdr@ == "mock_xdr_invoke_"@ + dto.contract_id@ + "_"@ + dto.method@ + "_"@
            + args@);
        Ok(tx_xdr)
    }
}

} // verus!
