//! Types of the Abstract, CosmWasm and cw20 crates that the messages carry.
//!
//! Each is declared opaque: the messages hold such values and hand them on,
//! and nothing in this crate reads inside one.

use vstd::prelude::*;

verus! {

/// An Abstract name-service asset name, such as `osmosis>juno>crab`.
#[verifier::external_type_specification]
#[verifier::external_body]
pub struct ExAssetEntry(abstract_app::std::objects::AssetEntry);

/// An asset named by the Abstract name service, with an amount.
#[verifier::external_type_specification]
#[verifier::external_body]
pub struct ExAnsAsset(abstract_app::std::objects::AnsAsset);

/// A CosmWasm account address.
#[verifier::external_type_specification]
#[verifier::external_body]
pub struct ExAddr(cosmwasm_std::Addr);

/// A value that a configuration update either sets or clears.
#[verifier::external_type_specification]
#[verifier::external_body]
#[verifier::reject_recursive_types(C)]
pub struct ExClearable<C>(abstract_app::sdk::cw_helpers::Clearable<C>);

/// The execute messages that every Abstract app understands.
#[verifier::external_type_specification]
#[verifier::external_body]
pub struct ExBaseExecuteMsg(abstract_app::std::app::BaseExecuteMsg);

/// The message a cw20 token contract sends along with tokens it transfers.
#[verifier::external_type_specification]
#[verifier::external_body]
pub struct ExCw20ReceiveMsg(cw20::Cw20ReceiveMsg);

} // verus!

verus! {

// Copies of the declared values. Each of these `clone` functions is the one
// that `derive(Clone)` wrote in its crate; nothing is claimed of the copy,
// only that the call may be made.

/// `Clone::clone` of `AssetEntry`, derived in abstract-std: copies the name.
pub assume_specification[ <abstract_app::std::objects::AssetEntry as Clone>::clone ](
    entry: &abstract_app::std::objects::AssetEntry,
) -> abstract_app::std::objects::AssetEntry;

/// `Clone::clone` of `AnsAsset`, derived in abstract-std: copies name and amount.
pub assume_specification[ <abstract_app::std::objects::AnsAsset as Clone>::clone ](
    asset: &abstract_app::std::objects::AnsAsset,
) -> abstract_app::std::objects::AnsAsset;

/// `Clone::clone` of `Addr`, derived in cosmwasm-std: copies the address text.
pub assume_specification[ <cosmwasm_std::Addr as Clone>::clone ](
    addr: &cosmwasm_std::Addr,
) -> cosmwasm_std::Addr;

/// `Clone::clone` of `Clearable<C>`, derived in cw-clearable: copies the
/// variant and clones a set value.
pub assume_specification<C: Clone>[ <abstract_app::sdk::cw_helpers::Clearable<C> as Clone>::clone ](
    value: &abstract_app::sdk::cw_helpers::Clearable<C>,
) -> abstract_app::sdk::cw_helpers::Clearable<C>;

/// `Clone::clone` of `BaseExecuteMsg`, derived in abstract-std on an enum
/// without variants.
pub assume_specification[ <abstract_app::std::app::BaseExecuteMsg as Clone>::clone ](
    msg: &abstract_app::std::app::BaseExecuteMsg,
) -> abstract_app::std::app::BaseExecuteMsg;

/// `Clone::clone` of `Cw20ReceiveMsg`, derived in cw20: copies sender,
/// amount and payload.
pub assume_specification[ <cw20::Cw20ReceiveMsg as Clone>::clone ](
    msg: &cw20::Cw20ReceiveMsg,
) -> cw20::Cw20ReceiveMsg;

} // verus!
