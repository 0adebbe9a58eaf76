//! The payment app's messages.
//!
//! The app is instantiated with the asset it wants to be paid in, the
//! denomination its amounts are quoted in and the exchanges it may swap on;
//! it executes tips and configuration updates, receives cw20 tokens, and
//! answers queries about its configuration and its tippers.

use vstd::prelude::*;
use abstract_app::sdk::cw_helpers::Clearable;
use abstract_app::objects::{AnsAsset, AssetEntry, DexName};
use cosmwasm_std::Addr;
use cw20::Cw20ReceiveMsg;
use vstd::std_specs::convert::{FromSpec, FromSpecImpl};

verus! {

/// PaymentApp instantiate message
#[derive(Clone, Debug, PartialEq)]
pub struct AppInstantiateMsg {
    pub desired_asset: Option<AssetEntry>,
    pub denom_asset: String,
    pub exchanges: Vec<DexName>,
}

/// PaymentApp execute messages
#[derive(Clone, Debug, PartialEq)]
pub enum AppExecuteMsg {
    /// Tip the app with the funds sent along.
    Tip {},
    /// Change the app's configuration.
    UpdateConfig {
        desired_asset: Option<Clearable<AssetEntry>>,
        denom_asset: Option<String>,
        exchanges: Option<Vec<DexName>>,
    },
}

/// Custom execute handler
#[derive(Clone, Debug, PartialEq)]
pub enum CustomExecuteMsg {
    /// A configuration message, defined by the base.
    Base(abstract_app::std::app::BaseExecuteMsg),
    /// An app request defined by a base consumer.
    Module(AppExecuteMsg),
    /// Custom msg type
    Receive(Cw20ReceiveMsg),
}

impl From<AppExecuteMsg> for CustomExecuteMsg {
    /// An app request is executed as the `Module` variant of the custom
    /// execute message.
    fn from(value: AppExecuteMsg) -> (msg: Self)
        ensures
            msg == CustomExecuteMsg::Module(value),
    {
        CustomExecuteMsg::Module(value)
    }
}

impl FromSpecImpl<AppExecuteMsg> for CustomExecuteMsg {
    open spec fn obeys_from_spec() -> bool {
        true
    }

    open spec fn from_spec(v: AppExecuteMsg) -> Self {
        CustomExecuteMsg::Module(v)
    }
}

/// Converting an app request to a custom execute message keeps the request:
/// the result is always the `Module` variant, and two requests convert to the
/// same message only when they are the same request.
pub proof fn lemma_from_app_request_is_injective(a: AppExecuteMsg, b: AppExecuteMsg)
    ensures
        <CustomExecuteMsg as FromSpec<AppExecuteMsg>>::from_spec(a) is Module,
        <CustomExecuteMsg as FromSpec<AppExecuteMsg>>::from_spec(a)
            == <CustomExecuteMsg as FromSpec<AppExecuteMsg>>::from_spec(b) ==> a == b,
{
}

/// The queries the payment app answers.
#[derive(Clone, Debug, PartialEq)]
pub enum AppQueryMsg {
    /// Returns [`ConfigResponse`]
    Config {},
    /// Returns [`TipperResponse`]
    Tipper {
        address: String,
        start_after: Option<AssetEntry>,
        limit: Option<u32>,
        at_height: Option<u64>,
    },
    /// Returns [`TipCountResponse`]
    TipCount {},
    /// Returns [`TippersCountResponse`]
    ListTippersCount {
        start_after: Option<String>,
        limit: Option<u32>,
    },
}

/// Which response type answers a query.
#[derive(Clone, Copy, Debug, PartialEq, Eq, Structural)]
pub enum QueryResponseKind {
    /// [`ConfigResponse`]
    Config,
    /// [`TipperResponse`]
    Tipper,
    /// [`TipCountResponse`]
    TipCount,
    /// [`TippersCountResponse`]
    TippersCount,
}

impl AppQueryMsg {
    /// The response type that each query is answered with.
    pub open spec fn spec_response_kind(self) -> QueryResponseKind {
        match self {
            AppQueryMsg::Config {} => QueryResponseKind::Config,
            AppQueryMsg::Tipper { .. } => QueryResponseKind::Tipper,
            AppQueryMsg::TipCount {} => QueryResponseKind::TipCount,
            AppQueryMsg::ListTippersCount { .. } => QueryResponseKind::TippersCount,
        }
    }

    /// The response type that this query is answered with.
    pub fn response_kind(&self) -> (kind: QueryResponseKind)
        ensures
            kind == self.spec_response_kind(),
            *self is Config ==> kind == QueryResponseKind::Config,
            *self is Tipper ==> kind == QueryResponseKind::Tipper,
            *self is TipCount ==> kind == QueryResponseKind::TipCount,
            *self is ListTippersCount ==> kind == QueryResponseKind::TippersCount,
    {
        match self {
            AppQueryMsg::Config {} => QueryResponseKind::Config,
            AppQueryMsg::Tipper { .. } => QueryResponseKind::Tipper,
            AppQueryMsg::TipCount {} => QueryResponseKind::TipCount,
            AppQueryMsg::ListTippersCount { .. } => QueryResponseKind::TippersCount,
        }
    }
}

/// Each query is answered by the response type that its variant names,
/// whatever the query's address, page start, page size and height: `Config`
/// by [`ConfigResponse`], `Tipper` by [`TipperResponse`], `TipCount` by
/// [`TipCountResponse`] and `ListTippersCount` by [`TippersCountResponse`].
pub proof fn lemma_response_kind_follows_the_variant(
    address: String,
    tipper_start_after: Option<AssetEntry>,
    tipper_limit: Option<u32>,
    at_height: Option<u64>,
    list_start_after: Option<String>,
    list_limit: Option<u32>,
)
    ensures
        (AppQueryMsg::Config {}).spec_response_kind() == QueryResponseKind::Config,
        (AppQueryMsg::Tipper {
            address,
            start_after: tipper_start_after,
            limit: tipper_limit,
            at_height,
        }).spec_response_kind() == QueryResponseKind::Tipper,
        (AppQueryMsg::TipCount {}).spec_response_kind() == QueryResponseKind::TipCount,
        (AppQueryMsg::ListTippersCount {
            start_after: list_start_after,
            limit: list_limit,
        }).spec_response_kind() == QueryResponseKind::TippersCount,
{
}

/// Two queries of the same variant are answered by the same response type,
/// and queries of different variants by different ones.
pub proof fn lemma_response_kind_tells_the_variant(q: AppQueryMsg, r: AppQueryMsg)
    ensures
        (q.spec_response_kind() == r.spec_response_kind()) <==> (
            (q is Config && r is Config)
            || (q is Tipper && r is Tipper)
            || (q is TipCount && r is TipCount)
            || (q is ListTippersCount && r is ListTippersCount)
        ),
{
}

/// PaymentApp migrate message
#[derive(Clone, Copy, Debug, PartialEq, Eq, Structural, Default)]
pub struct AppMigrateMsg {}

/// The message sent along with cw20 tokens that are tipped to the app.
#[derive(Clone, Copy, Debug, PartialEq, Eq, Structural, Default)]
pub struct Cw20TipMsg {}

/// The app's configuration.
#[derive(Clone, Debug, PartialEq)]
pub struct ConfigResponse {
    pub desired_asset: Option<AssetEntry>,
    pub denom_asset: String,
    pub exchanges: Vec<DexName>,
}

/// What one tipper has tipped: how often and which amounts in all.
#[derive(Clone, Debug, PartialEq)]
pub struct TipperResponse {
    pub address: Addr,
    pub tip_count: u32,
    pub total_amounts: Vec<AnsAsset>,
}

/// How often one tipper has tipped.
#[derive(Clone, Debug, PartialEq)]
pub struct TipperCountResponse {
    pub address: Addr,
    pub count: u32,
}

/// How often each tipper of a page of tippers has tipped.
#[derive(Clone, Debug, PartialEq)]
pub struct TippersCountResponse {
    pub tippers: Vec<TipperCountResponse>,
}

/// How many tips the app has received.
#[derive(Clone, Copy, Debug, PartialEq, Eq, Structural)]
pub struct TipCountResponse {
    pub count: u32,
}

} // verus!
