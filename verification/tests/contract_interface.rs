use cosmwasm_std::testing::mock_dependencies_with_balance;
use signed_decimal::contract_interface::{
    CommandError, CommandHandler, CommandMsg, CommandResponse, ContractModule,
};

#[test]
fn contract_module_can_execute_a_command() {
    let mut deps = mock_dependencies_with_balance(&[]);
    let mut contract_module = ContractModule {
        storage: deps.as_mut().storage,
    };

    let response = contract_module
        .execute(CommandMsg::ExampleUpdate { is_active: true })
        .unwrap();

    assert_eq!(
        CommandResponse::ExampleUpdateResponse { is_active: true },
        response
    );

    let response = contract_module
        .execute(CommandMsg::ExampleFailingUpdate { is_active: true })
        .unwrap_err();

    assert_eq!(CommandError::ExampleUpdateError {}, response);
}

#[test]
fn update_answers_with_the_flag_it_was_sent() {
    let mut contract_module = ContractModule { storage: 7u8 };

    assert_eq!(
        contract_module.execute(CommandMsg::ExampleUpdate { is_active: false }),
        Ok(CommandResponse::ExampleUpdateResponse { is_active: false })
    );
    assert_eq!(
        contract_module.execute(CommandMsg::ExampleFailingUpdate { is_active: false }),
        Err(CommandError::ExampleUpdateError {})
    );
    assert_eq!(contract_module.storage, 7u8);
}
