//! The shared base messages of the treasury modules, routed through the
//! template module's `execute`.

use luna_vault::admin::Admin;
use luna_vault::dapp_base::{AddressBookEntry, BaseExecuteMsg, BaseState, load_contract_addr};
use luna_vault::dapp_template::{execute, instantiate, BaseInstantiateMsg, ExecuteMsg};
use luna_vault::error::{AdminError, BaseDAppError};

const TEST_CREATOR: &str = "creator";
const TREASURY_CONTRACT: &str = "treasury_contract";
const TRADER_CONTRACT: &str = "trader_contract";
const MEMORY_CONTRACT: &str = "memory_contract";

fn mock_instantiate() -> (BaseState, Vec<AddressBookEntry>, Admin) {
    let (state, admin) = instantiate(
        &TEST_CREATOR.to_string(),
        BaseInstantiateMsg {
            treasury_address: TREASURY_CONTRACT.to_string(),
            trader: TRADER_CONTRACT.to_string(),
            memory_addr: MEMORY_CONTRACT.to_string(),
        },
    );
    (state, Vec::new(), admin)
}

fn mock_add_to_address_book(
    state: &mut BaseState,
    book: &mut Vec<AddressBookEntry>,
    admin: &mut Admin,
    entry: (String, String),
) {
    let msg = ExecuteMsg::Base(BaseExecuteMsg::UpdateAddressBook {
        to_add: vec![entry],
        to_remove: vec![],
    });
    execute(state, book, admin, &TEST_CREATOR.to_string(), msg).unwrap();
}

#[test]
pub fn test_unsuccessfully_update_config_msg() {
    let (mut state, mut book, mut admin) = mock_instantiate();
    let msg = ExecuteMsg::Base(BaseExecuteMsg::UpdateConfig {
        treasury_address: None,
        trader: None,
    });

    let res = execute(&mut state, &mut book, &mut admin, &"unauthorized".to_string(), msg);

    match res {
        Err(BaseDAppError::Admin(_)) => (),
        Ok(_) => panic!("Should return unauthorized Error, Admin(NotAdmin)"),
        err => panic!("Should return unauthorized Error, Admin(NotAdmin) {:?}", err),
    }
}

#[test]
pub fn test_successfully_update_config_treasury_address_msg() {
    let (mut state, mut book, mut admin) = mock_instantiate();
    let msg = ExecuteMsg::Base(BaseExecuteMsg::UpdateConfig {
        treasury_address: Some("new_treasury_address".to_string()),
        trader: None,
    });

    execute(&mut state, &mut book, &mut admin, &TEST_CREATOR.to_string(), msg).unwrap();

    assert_eq!(state.treasury_address, "new_treasury_address".to_string());
    assert_eq!(state.trader, TRADER_CONTRACT.to_string());
}

#[test]
pub fn test_successfully_update_config_trader_address_msg() {
    let (mut state, mut book, mut admin) = mock_instantiate();
    let msg = ExecuteMsg::Base(BaseExecuteMsg::UpdateConfig {
        treasury_address: None,
        trader: Some("new_trader_address".to_string()),
    });

    execute(&mut state, &mut book, &mut admin, &TEST_CREATOR.to_string(), msg).unwrap();

    assert_eq!(state.treasury_address, TREASURY_CONTRACT.to_string());
    assert_eq!(state.trader, "new_trader_address".to_string());
}

#[test]
pub fn test_successfully_update_config_both_treasury_and_trader_address_msg() {
    let (mut state, mut book, mut admin) = mock_instantiate();
    let msg = ExecuteMsg::Base(BaseExecuteMsg::UpdateConfig {
        treasury_address: Some("new_treasury_address".to_string()),
        trader: Some("new_trader_address".to_string()),
    });

    execute(&mut state, &mut book, &mut admin, &TEST_CREATOR.to_string(), msg).unwrap();

    assert_eq!(state.treasury_address, "new_treasury_address".to_string());
    assert_eq!(state.trader, "new_trader_address".to_string());
}

#[test]
pub fn test_successfully_update_config_none_msg() {
    let (mut state, mut book, mut admin) = mock_instantiate();
    let msg = ExecuteMsg::Base(BaseExecuteMsg::UpdateConfig {
        treasury_address: None,
        trader: None,
    });

    execute(&mut state, &mut book, &mut admin, &TEST_CREATOR.to_string(), msg).unwrap();

    assert_eq!(state.treasury_address, TREASURY_CONTRACT.to_string());
    assert_eq!(state.trader, TRADER_CONTRACT.to_string());
}

#[test]
pub fn test_unsuccessfully_set_admin_msg() {
    let (mut state, mut book, mut admin) = mock_instantiate();
    let msg = ExecuteMsg::Base(BaseExecuteMsg::SetAdmin {
        admin: "new_admin".to_string(),
    });

    let res = execute(&mut state, &mut book, &mut admin, &"unauthorized".to_string(), msg);

    match res {
        Err(BaseDAppError::Admin(_)) => (),
        Ok(_) => panic!("Should return unauthorized Error, Admin(NotAdmin)"),
        _ => panic!("Should return unauthorized Error, Admin(NotAdmin)"),
    }
}

#[test]
pub fn test_successfully_set_admin_msg() {
    let (mut state, mut book, mut admin) = mock_instantiate();

    // check original admin
    assert_eq!(admin.get(), Some(TEST_CREATOR.to_string()));

    // set new admin
    let msg = ExecuteMsg::Base(BaseExecuteMsg::SetAdmin {
        admin: "new_admin".to_string(),
    });
    let res = execute(&mut state, &mut book, &mut admin, &TEST_CREATOR.to_string(), msg).unwrap();
    assert_eq!(0, res.len());

    // check new admin
    assert_eq!(admin.get(), Some("new_admin".to_string()));
}

#[test]
pub fn test_unsuccessfully_update_address_book_msg() {
    let (mut state, mut book, mut admin) = mock_instantiate();
    let msg = ExecuteMsg::Base(BaseExecuteMsg::UpdateAddressBook {
        to_add: vec![],
        to_remove: vec![],
    });

    let res = execute(&mut state, &mut book, &mut admin, &"unauthorized".to_string(), msg);

    match res {
        Err(BaseDAppError::Admin(AdminError::NotAdmin)) => (),
        Ok(_) => panic!("Should return unauthorized Error, Admin(NotAdmin)"),
        _ => panic!("Should return unauthorized Error, Admin(NotAdmin)"),
    }
}

#[test]
pub fn test_successfully_update_address_book_add_address_msg() {
    let (mut state, mut book, mut admin) = mock_instantiate();
    let msg = ExecuteMsg::Base(BaseExecuteMsg::UpdateAddressBook {
        to_add: vec![("asset".to_string(), "address".to_string())],
        to_remove: vec![],
    });

    execute(&mut state, &mut book, &mut admin, &TEST_CREATOR.to_string(), msg).unwrap();

    let asset_address = load_contract_addr(&book, &"asset".to_string()).unwrap();
    assert_eq!(asset_address, "address".to_string());
}

#[test]
pub fn test_successfully_update_address_book_remove_address_msg() {
    let (mut state, mut book, mut admin) = mock_instantiate();

    // add address
    let msg = ExecuteMsg::Base(BaseExecuteMsg::UpdateAddressBook {
        to_add: vec![("asset".to_string(), "address".to_string())],
        to_remove: vec![],
    });

    execute(&mut state, &mut book, &mut admin, &TEST_CREATOR.to_string(), msg).unwrap();

    let asset_address = load_contract_addr(&book, &"asset".to_string()).unwrap();
    assert_eq!(asset_address, "address".to_string());

    // remove address
    let msg = ExecuteMsg::Base(BaseExecuteMsg::UpdateAddressBook {
        to_add: vec![],
        to_remove: vec!["asset".to_string()],
    });

    execute(&mut state, &mut book, &mut admin, &TEST_CREATOR.to_string(), msg).unwrap();

    let res = load_contract_addr(&book, &"asset".to_string());

    match res {
        Err(BaseDAppError::NotFound) => (),
        Ok(_) => panic!("Should return NotFound Err"),
        _ => panic!("Should return NotFound Err"),
    }
}

#[test]
pub fn test_successfully_update_address_book_add_and_removeaddress_msg() {
    let (mut state, mut book, mut admin) = mock_instantiate();

    //add address
    let msg = ExecuteMsg::Base(BaseExecuteMsg::UpdateAddressBook {
        to_add: vec![("asset".to_string(), "address".to_string())],
        to_remove: vec![],
    });

    execute(&mut state, &mut book, &mut admin, &TEST_CREATOR.to_string(), msg).unwrap();

    let asset_address = load_contract_addr(&book, &"asset".to_string()).unwrap();
    assert_eq!(asset_address, "address".to_string());

    // query non-existing address
    let res = load_contract_addr(&book, &"another_asset".to_string());
    match res {
        Err(BaseDAppError::NotFound) => (),
        Ok(_) => panic!("Should return NotFound Err"),
        _ => panic!("Should return NotFound Err"),
    }

    //add and remove addresses
    let msg = ExecuteMsg::Base(BaseExecuteMsg::UpdateAddressBook {
        to_add: vec![("another_asset".to_string(), "another_address".to_string())],
        to_remove: vec!["asset".to_string()],
    });
    execute(&mut state, &mut book, &mut admin, &TEST_CREATOR.to_string(), msg).unwrap();

    // another_asset should be in the addressbook now
    let asset_address = load_contract_addr(&book, &"another_asset".to_string()).unwrap();
    assert_eq!(asset_address, "another_address".to_string());

    // asset should not be in the addressbook now
    let res = load_contract_addr(&book, &"asset".to_string());
    match res {
        Err(BaseDAppError::NotFound) => (),
        Ok(_) => panic!("Should return NotFound Err"),
        _ => panic!("Should return NotFound Err"),
    }
}

#[test]
pub fn test_upsert_replaces_existing_address() {
    let (mut state, mut book, mut admin) = mock_instantiate();
    mock_add_to_address_book(
        &mut state,
        &mut book,
        &mut admin,
        ("asset".to_string(), "address".to_string()),
    );
    mock_add_to_address_book(
        &mut state,
        &mut book,
        &mut admin,
        ("asset".to_string(), "replacement".to_string()),
    );

    let asset_address = load_contract_addr(&book, &"asset".to_string()).unwrap();
    assert_eq!(asset_address, "replacement".to_string());
    assert_eq!(book.len(), 1);
}
