//! The fixed names, addresses and limits of the pipeline.

use vstd::prelude::*;

verus! {

/// Seconds after which a remote operation times out, unless the caller says otherwise:
/// two weeks.
pub const DEFAULT_TIMEOUT_SECONDS: u64 = 1209600;

/// The denomination in which relayer fees are paid, and in which deposits arrive.
pub const FEE_DENOM: &'static str = "untrn";

/// The settlement asset.
pub const SETTLEMENT_DENOM: &'static str = "uusdc";

/// The label of the remote account that the pipeline works through.
pub const OSMOSIS_IC_ACCOUNT_ID: &'static str = "babu_neutron_osmosis_v1";

/// The address of the yield pool on the remote chain.
pub const REDBANK_OSMOSIS_ADDR: &'static str =
    "osmo1c3ljch9dfw5kf52nfwpxd2zmj2ese7agnx0p9tenkrryasrle5sqf3ftpg";

/// The channel over which deposits leave.
pub const TRANSFER_OUT_CHANNEL: &'static str = "channel-186";

/// The channel over which redeemed funds come back.
pub const TRANSFER_BACK_CHANNEL: &'static str = "channel-3515";

/// The port of token transfers.
pub const TRANSFER_PORT: &'static str = "transfer";

/// The type tag of a cross-chain transfer.
pub const TRANSFER_TYPE_URL: &'static str = "/ibc.applications.transfer.v1.MsgTransfer";

/// The type tag of a remote swap.
pub const SWAP_TYPE_URL: &'static str = "/osmosis.cosmwasmpool.v1beta1.SwapExactAmountIn";

/// The type tag of a call of a remote contract.
pub const EXECUTE_TYPE_URL: &'static str = "/cosmwasm.wasm.v1.MsgExecuteContract";

/// The request that deposits into the yield pool.
pub const DEPOSIT_REQUEST: &'static str = "{\"deposit\":{}}";

/// The request that withdraws from the yield pool.
pub const WITHDRAW_REQUEST: &'static str = "{\"withdraw\":{}}";

/// The swap fee that a swap names.
pub const SWAP_FEE: &'static str = "10";

/// The label that every payload carries.
pub const PAYLOAD_LABEL: &'static str = "message";

/// What the errors queue records when an outcome arrives for a ticket without a payload.
pub const MISSING_PAYLOAD_NOTE: &'static str = "WASMDEBUG: Error: Unable to read sudo payload";

/// The handle attached to a dispatch, by which its confirmation finds the staged payload.
pub const SUDO_PAYLOAD_REPLY_ID: u64 = 1;

/// Of every hundred units swapped, the number that must at least come out.
pub const MIN_OUT_PERCENT: u128 = 95;

} // verus!
