use pcics::extended_capabilities::power_budgeting::{BasePower, Data, DataScale, OperationConditionType, PmState, PmSubState, PowerBudgetCapability, PowerBudgeting, PowerRail};

#[test]
fn power_budgeting_parse() {
    let data = [
        0x04, 0x00, 0x01, 0x16, 0x00, 0x00, 0x00, 0x00,
        0x1b, 0x81, 0x07, 0x00, 0x01, 0x00, 0x00, 0x00,
    ];
    let result: PowerBudgeting = data[4..].try_into().unwrap();
    let sample = PowerBudgeting {
        data_select: 0x00,
        data: Data {
            base_power: BasePower::Value(0x1b),
            data_scale: DataScale::Deci,
            pm_sub_state: PmSubState::Default,
            pm_state: PmState::D0,
            operation_condition_type: OperationConditionType::Maximum,
            power_rail: PowerRail::Power3_3v,
        },
        power_budget_capability: PowerBudgetCapability {
            system_allocated: true,
        },
    };
    assert_eq!(sample, result);
}
