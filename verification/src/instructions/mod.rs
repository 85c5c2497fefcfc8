//! The operations of the protocol, one function each.

pub mod admin;
pub mod market_maker;
pub mod opening;
pub mod position_request;
pub mod settlement;
pub mod user;

pub use admin::{
    handle_add_asset, handle_initialize_global_state, handle_update_asset,
    handle_update_global_state, AddAsset, InitializeGlobalState, UpdateAsset, UpdateGlobalState,
};
pub use market_maker::{
    handle_deposit_liquidity, handle_initialize_vault, handle_register_market_maker,
    handle_submit_quote, handle_update_quote, handle_withdraw_liquidity, DepositLiquidity,
    InitializeVault, RegisterMarketMaker, SubmitQuote, UpdateQuote, WithdrawLiquidity,
};
pub use position_request::{
    execute_cash_secured_put, execute_covered_call, handle_cancel_expired_request,
    handle_confirm_position, handle_reject_request, handle_request_position,
    CancelExpiredRequest, ConfirmPosition, RejectRequest, RequestPosition,
};
pub use settlement::{
    handle_settle_position, settle_cash_secured_put, settle_covered_call, settle_with_update,
    SettlePosition,
};
pub use user::{
    handle_cash_secured_put_position, handle_covered_call_position, handle_create_position,
    initialize_position, CreatePosition,
};
