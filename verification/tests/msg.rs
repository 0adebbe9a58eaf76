use abstract_app::objects::{AnsAsset, AssetEntry};
use abstract_app::sdk::cw_helpers::Clearable;
use cosmwasm_std::{Addr, Binary, Uint128};
use cw20::Cw20ReceiveMsg;
use payment_app::msg::{
    AppExecuteMsg, AppInstantiateMsg, AppMigrateMsg, AppQueryMsg, ConfigResponse,
    Cw20TipMsg, CustomExecuteMsg, QueryResponseKind, TipCountResponse, TipperCountResponse,
    TipperResponse, TippersCountResponse,
};

fn update_config() -> AppExecuteMsg {
    AppExecuteMsg::UpdateConfig {
        desired_asset: Some(Clearable::Set(AssetEntry::new("Osmosis>OSMO"))),
        denom_asset: Some("usd".to_string()),
        exchanges: Some(vec!["osmosis".to_string(), "astroport".to_string()]),
    }
}

#[test]
fn tip_becomes_module_message() {
    let msg = CustomExecuteMsg::from(AppExecuteMsg::Tip {});
    assert_eq!(msg, CustomExecuteMsg::Module(AppExecuteMsg::Tip {}));
}

#[test]
fn update_config_becomes_module_message() {
    let msg = CustomExecuteMsg::from(update_config());
    assert_eq!(msg, CustomExecuteMsg::Module(update_config()));
}

#[test]
fn clearing_update_becomes_module_message() {
    let clear = AppExecuteMsg::UpdateConfig {
        desired_asset: Some(Clearable::Clear),
        denom_asset: None,
        exchanges: None,
    };
    let msg: CustomExecuteMsg = clear.clone().into();
    assert_eq!(msg, CustomExecuteMsg::Module(clear));
}

#[test]
fn into_gives_the_same_message_as_from() {
    let via_into: CustomExecuteMsg = update_config().into();
    assert_eq!(via_into, CustomExecuteMsg::from(update_config()));
}

#[test]
fn distinct_requests_stay_distinct() {
    let tip = CustomExecuteMsg::from(AppExecuteMsg::Tip {});
    let update = CustomExecuteMsg::from(update_config());
    assert_ne!(tip, update);
}

#[test]
fn module_message_is_not_a_receive_message() {
    let receive = CustomExecuteMsg::Receive(Cw20ReceiveMsg {
        sender: "sender".to_string(),
        amount: Uint128::new(5),
        msg: Binary::from(b"{}".to_vec()),
    });
    assert_ne!(CustomExecuteMsg::from(AppExecuteMsg::Tip {}), receive);
}

#[test]
fn config_query_is_answered_by_config_response() {
    assert_eq!(AppQueryMsg::Config {}.response_kind(), QueryResponseKind::Config);
}

#[test]
fn tipper_query_is_answered_by_tipper_response() {
    let query = AppQueryMsg::Tipper {
        address: "tipper".to_string(),
        start_after: Some(AssetEntry::new("juno>juno")),
        limit: Some(10),
        at_height: Some(42),
    };
    assert_eq!(query.response_kind(), QueryResponseKind::Tipper);
}

#[test]
fn tip_count_query_is_answered_by_tip_count_response() {
    assert_eq!(AppQueryMsg::TipCount {}.response_kind(), QueryResponseKind::TipCount);
}

#[test]
fn list_tippers_count_query_is_answered_by_tippers_count_response() {
    let query = AppQueryMsg::ListTippersCount {
        start_after: None,
        limit: Some(3),
    };
    assert_eq!(query.response_kind(), QueryResponseKind::TippersCount);
}

#[test]
fn responses_hold_what_they_are_built_with() {
    let config = ConfigResponse {
        desired_asset: None,
        denom_asset: "usd".to_string(),
        exchanges: vec!["osmosis".to_string()],
    };
    assert_eq!(config.clone(), config);
    let tipper = TipperResponse {
        address: Addr::unchecked("tipper"),
        tip_count: 2,
        total_amounts: vec![AnsAsset::new("juno>juno", 100u128)],
    };
    assert_eq!(tipper.tip_count, 2);
    assert_eq!(tipper.total_amounts[0].amount, Uint128::new(100));
    let tippers = TippersCountResponse {
        tippers: vec![TipperCountResponse { address: Addr::unchecked("tipper"), count: 2 }],
    };
    assert_eq!(tippers.tippers.len(), 1);
    assert_eq!(TipCountResponse { count: 7 }, TipCountResponse { count: 7 });
}

#[test]
fn instantiate_and_empty_messages() {
    let init = AppInstantiateMsg {
        desired_asset: Some(AssetEntry::new("juno>juno")),
        denom_asset: "usd".to_string(),
        exchanges: vec![],
    };
    assert_eq!(init.desired_asset, Some(AssetEntry::new("JUNO>JUNO")));
    assert_eq!(AppMigrateMsg::default(), AppMigrateMsg {});
    assert_eq!(Cw20TipMsg::default(), Cw20TipMsg {});
}
