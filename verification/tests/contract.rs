use cosmwasm_std::testing::{mock_dependencies, mock_info, MockQuerier};
use cosmwasm_std::{
    coins, to_json_binary, Addr, ContractResult, QuerierResult, QuerierWrapper, StdError,
    SystemError, SystemResult, WasmQuery,
};
use cw721::{Cw721QueryMsg, OwnerOfResponse};
use howl_pack_contract::contract::{execute, instantiate, query};
use howl_pack_contract::error::ContractError;
use howl_pack_contract::host::OwnershipOracle;
use howl_pack_contract::msg::{ExecuteMsg, InstantiateMsg, QueryMsg, QueryResponse};
use howl_pack_contract::state::{
    Config, EmailNotification, Notification, Store, WebhookNotification,
};

const DENS: &str = "dens_addr";
const TOKEN_ID: &str = "token_id";

fn mock_resp() -> OwnerOfResponse {
    OwnerOfResponse { approvals: vec![], owner: String::from("owner") }
}

/// A registry at `DENS` that knows one token, `TOKEN_ID`, held by "owner".
fn answer_for_known_token(q: &WasmQuery) -> QuerierResult {
    if q == &(WasmQuery::Smart {
        contract_addr: DENS.to_string(),
        msg: to_json_binary(&Cw721QueryMsg::OwnerOf {
            token_id: TOKEN_ID.to_string(),
            include_expired: None,
        })
        .unwrap(),
    }) {
        SystemResult::Ok(ContractResult::Ok(to_json_binary(&mock_resp()).unwrap()))
    } else {
        SystemResult::Err(SystemError::NoSuchContract { addr: DENS.to_string() })
    }
}

fn one_email() -> Vec<Notification> {
    vec![Notification::Email(EmailNotification {
        encoded_addr: format!("encoded_addr"),
        masked_addr: format!("masked_addr"),
        preferences: format!("4"),
    })]
}

fn config_of(store: &Store) -> Config {
    match query(store, QueryMsg::GetConfig {}).unwrap() {
        QueryResponse::Config(config) => config,
        QueryResponse::Notifications(_) => panic!("asked for the configuration"),
    }
}

fn list_of(store: &Store, token_id: &str) -> Vec<Notification> {
    match query(store, QueryMsg::GetNotifications { token_id: token_id.to_string() }).unwrap() {
        QueryResponse::Notifications(list) => list,
        QueryResponse::Config(_) => panic!("asked for a list"),
    }
}

fn attributes_of(response: &cosmwasm_std::Response) -> Vec<(String, String)> {
    response.attributes.iter().map(|a| (a.key.clone(), a.value.clone())).collect()
}

fn pair(key: &str, value: &str) -> (String, String) {
    (key.to_string(), value.to_string())
}

#[test]
fn proper_initialization() {
    let mut store = Store::new();

    let msg = InstantiateMsg { dens_addr: Addr::unchecked("dens_addr").into_string() };
    let info = mock_info("creator", &coins(1000, "earth"));

    let res = instantiate(&mut store, info.sender.into_string(), msg).unwrap();
    assert_eq!(0, res.messages.len());

    let res = query(&store, QueryMsg::GetConfig {}).unwrap();
    let value: Config = match res {
        QueryResponse::Config(config) => config,
        QueryResponse::Notifications(_) => panic!("asked for the configuration"),
    };
    assert_eq!(String::from("dens_addr"), value.dens_addr.to_string());
}

#[test]
fn update_config() {
    let deps = mock_dependencies();
    let oracle = OwnershipOracle { querier: QuerierWrapper::new(&deps.querier) };
    let mut store = Store::new();

    let msg = InstantiateMsg { dens_addr: Addr::unchecked("dens_addr").into_string() };
    let auth_info = mock_info("creator", &coins(2, "token"));
    let _res = instantiate(&mut store, auth_info.clone().sender.into_string(), msg).unwrap();

    let unauth_info = mock_info("anyone", &coins(2, "token"));
    let msg = ExecuteMsg::UpdateConfig {
        owner: Some(Addr::unchecked("anyone").into_string()),
        dens_addr: None,
    };

    let res = execute(&mut store, &oracle, unauth_info.sender.into_string(), msg);
    match res {
        Err(ContractError::Unauthorized {}) => {}
        _ => panic!("Must return unauthorized error"),
    }

    let msg = ExecuteMsg::UpdateConfig {
        owner: Some(Addr::unchecked("new_owner").into_string()),
        dens_addr: Some(Addr::unchecked("new_dens_addr").into_string()),
    };
    let _res = execute(&mut store, &oracle, auth_info.sender.into_string(), msg).unwrap();

    let res = query(&store, QueryMsg::GetConfig {}).unwrap();
    let value: Config = match res {
        QueryResponse::Config(config) => config,
        QueryResponse::Notifications(_) => panic!("asked for the configuration"),
    };
    assert_eq!(String::from("new_dens_addr"), value.dens_addr.to_string());
    assert_eq!(String::from("new_owner"), value.owner.to_string());
}

#[test]
fn update_notifications() {
    let mut deps = mock_dependencies();
    let mut store = Store::new();

    let msg = InstantiateMsg { dens_addr: Addr::unchecked(DENS).into_string() };
    let info = mock_info("creator", &coins(1000, "earth"));

    let _res = instantiate(&mut store, info.sender.into_string(), msg).unwrap();

    deps.querier.update_wasm(answer_for_known_token);
    let oracle = OwnershipOracle { querier: QuerierWrapper::new(&deps.querier) };

    let unauth_info = mock_info("anyone", &coins(2, "token"));
    let msg =
        ExecuteMsg::UpdateNotifications { token_id: TOKEN_ID.to_string(), notifications: vec![] };
    let res = execute(&mut store, &oracle, unauth_info.sender.into_string(), msg);
    match res {
        Err(ContractError::Unauthorized {}) => {}
        _ => panic!("Must return unauthorized error"),
    }

    // only the owner of the dens can update notifications
    let auth_info = mock_info("owner", &coins(2, "token"));
    let msg = ExecuteMsg::UpdateNotifications {
        token_id: TOKEN_ID.to_string(),
        notifications: vec![Notification::Email(EmailNotification {
            encoded_addr: format!("encoded_addr"),
            masked_addr: format!("masked_addr"),
            preferences: format!("4"),
        })],
    };
    let _res = execute(&mut store, &oracle, auth_info.sender.into_string(), msg).unwrap();

    let res =
        query(&store, QueryMsg::GetNotifications { token_id: TOKEN_ID.to_string() }).unwrap();
    let value: Vec<Notification> = match res {
        QueryResponse::Notifications(list) => list,
        QueryResponse::Config(_) => panic!("asked for a list"),
    };
    assert_eq!(1, value.len());
    assert_eq!(
        Notification::Email(EmailNotification {
            encoded_addr: format!("encoded_addr"),
            masked_addr: format!("masked_addr"),
            preferences: format!("4"),
        }),
        value[0]
    );
}

#[test]
fn initialization_reports_owner_and_registry() {
    let mut store = Store::new();
    let msg = InstantiateMsg { dens_addr: DENS.to_string() };
    let res = instantiate(&mut store, "creator".to_string(), msg).unwrap();
    assert_eq!(
        attributes_of(&res),
        vec![pair("method", "instantiate"), pair("owner", "creator"), pair("dens_addr", DENS)]
    );
    assert!(res.messages.is_empty());
    assert_eq!(
        config_of(&store),
        Config { owner: "creator".to_string(), dens_addr: DENS.to_string() }
    );
}

#[test]
fn initialization_takes_the_sender_as_owner() {
    let mut store = Store::new();
    instantiate(&mut store, "first".to_string(), InstantiateMsg { dens_addr: "a".to_string() })
        .unwrap();
    instantiate(&mut store, "second".to_string(), InstantiateMsg { dens_addr: "b".to_string() })
        .unwrap();
    assert_eq!(config_of(&store), Config { owner: "second".to_string(), dens_addr: "b".to_string() });
}

#[test]
fn configuration_is_missing_before_initialization() {
    let store = Store::new();
    let res = query(&store, QueryMsg::GetConfig {});
    assert!(matches!(res, Err(ContractError::NotFound {})));
}

#[test]
fn update_config_reports_the_new_configuration() {
    let querier: MockQuerier = MockQuerier::default();
    let oracle = OwnershipOracle { querier: QuerierWrapper::new(&querier) };
    let mut store = Store::new();
    instantiate(&mut store, "creator".to_string(), InstantiateMsg { dens_addr: DENS.to_string() })
        .unwrap();
    let msg = ExecuteMsg::UpdateConfig {
        owner: Some("new_owner".to_string()),
        dens_addr: Some("new_dens_addr".to_string()),
    };
    let res = execute(&mut store, &oracle, "creator".to_string(), msg).unwrap();
    assert_eq!(
        attributes_of(&res),
        vec![
            pair("action", "update_config"),
            pair("dens_addr", "new_dens_addr"),
            pair("owner", "new_owner")
        ]
    );
    assert!(res.messages.is_empty());
}

#[test]
fn update_config_without_configuration_is_not_found() {
    let querier: MockQuerier = MockQuerier::default();
    let oracle = OwnershipOracle { querier: QuerierWrapper::new(&querier) };
    let mut store = Store::new();
    let msg = ExecuteMsg::UpdateConfig { owner: Some("anyone".to_string()), dens_addr: None };
    let res = execute(&mut store, &oracle, "anyone".to_string(), msg);
    assert!(matches!(res, Err(ContractError::NotFound {})));
    assert!(matches!(query(&store, QueryMsg::GetConfig {}), Err(ContractError::NotFound {})));
}

#[test]
fn update_notifications_reports_the_list() {
    let mut querier: MockQuerier = MockQuerier::default();
    querier.update_wasm(answer_for_known_token);
    let oracle = OwnershipOracle { querier: QuerierWrapper::new(&querier) };
    let mut store = Store::new();
    instantiate(&mut store, "creator".to_string(), InstantiateMsg { dens_addr: DENS.to_string() })
        .unwrap();
    let msg =
        ExecuteMsg::UpdateNotifications { token_id: TOKEN_ID.to_string(), notifications: one_email() };
    let res = execute(&mut store, &oracle, "owner".to_string(), msg).unwrap();
    assert_eq!(
        attributes_of(&res),
        vec![
            pair("action", "update_notification"),
            pair("token_id", TOKEN_ID),
            pair(
                "notifications",
                "[Email(EmailNotification { masked_addr: \"masked_addr\", \
                 encoded_addr: \"encoded_addr\", preferences: \"4\" })]"
            )
        ]
    );
    assert!(res.messages.is_empty());
}

#[test]
fn update_notifications_reports_a_webhook() {
    let mut querier: MockQuerier = MockQuerier::default();
    querier.update_wasm(answer_for_known_token);
    let oracle = OwnershipOracle { querier: QuerierWrapper::new(&querier) };
    let mut store = Store::new();
    instantiate(&mut store, "creator".to_string(), InstantiateMsg { dens_addr: DENS.to_string() })
        .unwrap();
    let hook = Notification::Webhook(WebhookNotification {
        masked_url: "https://***".to_string(),
        encoded_url: "aHR0cHM6".to_string(),
        preferences: "{}".to_string(),
    });
    let msg = ExecuteMsg::UpdateNotifications {
        token_id: TOKEN_ID.to_string(),
        notifications: vec![hook],
    };
    let res = execute(&mut store, &oracle, "owner".to_string(), msg).unwrap();
    assert_eq!(
        attributes_of(&res)[2],
        pair(
            "notifications",
            "[Webhook(WebhookNotification { masked_url: \"https://***\", \
             encoded_url: \"aHR0cHM6\", preferences: \"{}\" })]"
        )
    );
    assert_eq!(
        list_of(&store, TOKEN_ID),
        vec![Notification::Webhook(WebhookNotification {
            masked_url: "https://***".to_string(),
            encoded_url: "aHR0cHM6".to_string(),
            preferences: "{}".to_string(),
        })]
    );
}

#[test]
fn update_notifications_without_configuration_is_not_found() {
    let mut querier: MockQuerier = MockQuerier::default();
    querier.update_wasm(answer_for_known_token);
    let oracle = OwnershipOracle { querier: QuerierWrapper::new(&querier) };
    let mut store = Store::new();
    let msg =
        ExecuteMsg::UpdateNotifications { token_id: TOKEN_ID.to_string(), notifications: one_email() };
    let res = execute(&mut store, &oracle, "owner".to_string(), msg);
    assert!(matches!(res, Err(ContractError::NotFound {})));
    assert!(list_of(&store, TOKEN_ID).is_empty());
}

#[test]
fn a_failed_ownership_query_is_passed_on() {
    let mut querier: MockQuerier = MockQuerier::default();
    querier.update_wasm(answer_for_known_token);
    let oracle = OwnershipOracle { querier: QuerierWrapper::new(&querier) };
    let mut store = Store::new();
    instantiate(&mut store, "creator".to_string(), InstantiateMsg { dens_addr: DENS.to_string() })
        .unwrap();
    let msg = ExecuteMsg::UpdateNotifications {
        token_id: "unknown_token".to_string(),
        notifications: one_email(),
    };
    let res = execute(&mut store, &oracle, "owner".to_string(), msg);
    match res {
        Err(ContractError::Std(StdError::GenericErr { msg, .. })) => {
            assert_eq!(msg, "Querier system error: No such contract: dens_addr")
        }
        other => panic!("the query error must be passed on, got {:?}", other),
    }
    assert!(list_of(&store, "unknown_token").is_empty());
}

#[test]
fn ownership_is_asked_of_the_configured_registry() {
    let mut querier: MockQuerier = MockQuerier::default();
    querier.update_wasm(answer_for_known_token);
    let oracle = OwnershipOracle { querier: QuerierWrapper::new(&querier) };
    let mut store = Store::new();
    instantiate(&mut store, "creator".to_string(), InstantiateMsg { dens_addr: DENS.to_string() })
        .unwrap();

    // while the configuration names the registry that knows the token, its owner gets through
    let msg =
        ExecuteMsg::UpdateNotifications { token_id: TOKEN_ID.to_string(), notifications: one_email() };
    execute(&mut store, &oracle, "owner".to_string(), msg).unwrap();

    // once it names another registry, that one is asked, and it does not answer
    let msg = ExecuteMsg::UpdateConfig { owner: None, dens_addr: Some("elsewhere".to_string()) };
    execute(&mut store, &oracle, "creator".to_string(), msg).unwrap();
    let msg =
        ExecuteMsg::UpdateNotifications { token_id: TOKEN_ID.to_string(), notifications: vec![] };
    let res = execute(&mut store, &oracle, "owner".to_string(), msg);
    assert!(matches!(res, Err(ContractError::Std(_))));
    assert_eq!(list_of(&store, TOKEN_ID), one_email());
}

#[test]
fn query_for_an_unwritten_token_is_empty() {
    let mut store = Store::new();
    assert_eq!(list_of(&store, TOKEN_ID), Vec::<Notification>::new());
    instantiate(&mut store, "creator".to_string(), InstantiateMsg { dens_addr: DENS.to_string() })
        .unwrap();
    assert_eq!(list_of(&store, TOKEN_ID), Vec::<Notification>::new());
    assert_eq!(list_of(&store, ""), Vec::<Notification>::new());
}
