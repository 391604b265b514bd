use serenity_strongbox_contract::contract::{execute, instantiate, query, Store};
use serenity_strongbox_contract::error::ContractError;
use serenity_strongbox_contract::msg::{
    BlockInfo, Env, ExecuteMsg, InstantiateMsg, QueryMsg, StrongboxResponse,
};
use serenity_strongbox_contract::viewing_key::ViewingKey;

const SEED: &str = "r5ypLSFsvpFYFfbfv05USo7wMlFjvoGh";
const ENTROPY: &str = "2418D8fZhQs8jIzuhiZ8";

fn mock_env() -> Env {
    Env {
        block: BlockInfo {
            height: 12_345,
            time: 1_571_797_419_879_305_533,
        },
    }
}

fn id(name: &str) -> Vec<u8> {
    name.as_bytes().to_vec()
}

fn init(owner: &str) -> Store {
    instantiate(
        id(owner),
        InstantiateMsg {
            serenity_seed: String::from(SEED),
        },
    )
    .unwrap()
}

fn error_message<T>(res: Result<T, ContractError>) -> &'static str {
    match res {
        Err(e) => e.message(),
        Ok(_) => panic!("expected an error"),
    }
}

fn mint(store: &mut Store, sender: &str, viewer: &str, entropy: &str) -> Result<ViewingKey, ContractError> {
    let msg = ExecuteMsg::CreateViewingKey {
        viewer: id(viewer),
        entropy: entropy.to_string(),
        padding: None,
    };
    execute(store, &mock_env(), id(sender), msg).map(|r| r.data.unwrap())
}

fn update(store: &mut Store, sender: &str, value: &str) -> Result<(), ContractError> {
    let msg = ExecuteMsg::UpdateStrongbox {
        strongbox: String::from(value),
    };
    execute(store, &mock_env(), id(sender), msg).map(|r| assert!(r.data.is_none()))
}

fn get(store: &Store, behalf: &str, key: &str) -> Result<StrongboxResponse, ContractError> {
    query(
        store,
        QueryMsg::GetStrongbox {
            behalf: id(behalf),
            key: key.to_string(),
        },
    )
}

#[test]
fn proper_initialization() {
    let msg = InstantiateMsg {
        serenity_seed: String::from("init strongbox"),
    };
    let res = instantiate(id("creator"), msg);
    assert_eq!(error_message(res), "You need to provide valid seed");

    let msg = InstantiateMsg {
        serenity_seed: String::from(SEED),
    };
    let store = instantiate(id("creator"), msg).unwrap();
    assert_eq!(store.config.owner, id("creator"));
    assert_eq!(store.config.strongbox, "");
    assert!(store.config.entropy_hashes.is_empty());
}

#[test]
fn update_strongbox() {
    let mut store = init("creator");
    let res = update(&mut store, "visitor1", "Test strongbox");
    assert_eq!(error_message(res), "You are not allowed");

    update(&mut store, "creator", "Test strongbox").unwrap();
    assert_eq!(store.config.strongbox, "Test strongbox");
}

#[test]
fn create_viewing_key() {
    let mut store = init("creator");

    let res = mint(&mut store, "visitor1", "user1", "supbro");
    assert_eq!(error_message(res), "You need to provide valid entropy");

    let res = mint(&mut store, "visitor2", "user1", ENTROPY);
    assert_eq!(error_message(res), "You are not allowed");

    let vk = mint(&mut store, "creator", "user2", ENTROPY).unwrap();
    assert!(vk.as_bytes().len() > 0, "Viewing key not valid");

    let res = mint(&mut store, "creator", "user2", ENTROPY);
    assert_eq!(error_message(res), "You need to use another entropy");
}

#[test]
fn query_strongbox() {
    let mut store = init("creator");
    update(&mut store, "creator", "Test strongbox").unwrap();
    let vk = mint(&mut store, "creator", "user1", ENTROPY).unwrap();

    let res = get(&store, "user2", &vk.to_string());
    assert_eq!(error_message(res), "Your viewing key does not matched");

    let res = get(&store, "user1", &vk.to_string()).unwrap();
    assert_eq!(res.strongbox, "Test strongbox");
}

#[test]
fn transfer_ownership() {
    let mut store = init("creator1");
    let msg = ExecuteMsg::TransferOwnership {
        new_owner: id("creator2"),
    };
    execute(&mut store, &mock_env(), id("creator1"), msg).unwrap();

    let res = update(&mut store, "creator1", "Test strongbox");
    assert_eq!(error_message(res), "You are not allowed");

    update(&mut store, "creator2", "Test strongbox").unwrap();
}

#[test]
fn revoke_viewing_key() {
    let mut store = init("creator");
    update(&mut store, "creator", "Test strongbox").unwrap();
    let vk = mint(&mut store, "creator", "user1", ENTROPY).unwrap();

    let msg = ExecuteMsg::RevokeViewingKey { viewer: id("user1") };
    execute(&mut store, &mock_env(), id("creator"), msg).unwrap();

    let res = get(&store, "user1", &vk.to_string());
    assert_eq!(error_message(res), "Your viewing key does not matched");
}
