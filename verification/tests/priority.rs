use process_priority_enforcer::config::AppPriorityConfig;
use process_priority_enforcer::priority::{
    efficiency_mode_priorities, nt_status_is_success, priority_changes, CpuPriority, IoPriority,
    PowerQos, PowerThrottling, PriorityChange,
};

#[test]
fn cpu_priority_parses_documented_names_ignoring_case() {
    assert_eq!(CpuPriority::from_config_str("Idle"), Some(CpuPriority::VeryLow));
    assert_eq!(CpuPriority::from_config_str("idle"), Some(CpuPriority::VeryLow));
    assert_eq!(CpuPriority::from_config_str("BELOWNORMAL"), Some(CpuPriority::Low));
    assert_eq!(CpuPriority::from_config_str("normal"), Some(CpuPriority::Normal));
    assert_eq!(CpuPriority::from_config_str("aboveNormal"), Some(CpuPriority::High));
    assert_eq!(CpuPriority::from_config_str("HiGh"), Some(CpuPriority::VeryHigh));
}

#[test]
fn cpu_priority_rejects_unknown_names() {
    assert_eq!(CpuPriority::from_config_str(""), None);
    assert_eq!(CpuPriority::from_config_str("Idle "), None);
    assert_eq!(CpuPriority::from_config_str("Realtime"), None);
    assert_eq!(CpuPriority::from_config_str("VeryLow"), None);
    assert_eq!(CpuPriority::from_config_str("İdle"), None);
}

#[test]
fn io_priority_parses_ignoring_case() {
    assert_eq!(IoPriority::from_config_str("VeryLow"), Some(IoPriority::VeryLow));
    assert_eq!(IoPriority::from_config_str("verylow"), Some(IoPriority::VeryLow));
    assert_eq!(IoPriority::from_config_str("LOW"), Some(IoPriority::Low));
    assert_eq!(IoPriority::from_config_str("Normal"), Some(IoPriority::Normal));
    assert_eq!(IoPriority::from_config_str("High"), None);
}

#[test]
fn power_qos_parses_ignoring_case() {
    assert_eq!(PowerQos::from_config_str("SystemManaged"), Some(PowerQos::SystemManaged));
    assert_eq!(PowerQos::from_config_str("systemmanaged"), Some(PowerQos::SystemManaged));
    assert_eq!(PowerQos::from_config_str("eco"), Some(PowerQos::Eco));
    assert_eq!(PowerQos::from_config_str("HIGH"), Some(PowerQos::High));
    assert_eq!(PowerQos::from_config_str("Low"), None);
}

#[test]
fn config_names_read_back() {
    for p in [CpuPriority::VeryLow, CpuPriority::Low, CpuPriority::Normal, CpuPriority::High, CpuPriority::VeryHigh] {
        assert_eq!(CpuPriority::from_config_str(p.config_name()), Some(p));
        assert_eq!(CpuPriority::from_config_str(&p.config_name().to_uppercase()), Some(p));
    }
    for p in [IoPriority::VeryLow, IoPriority::Low, IoPriority::Normal] {
        assert_eq!(IoPriority::from_config_str(p.config_name()), Some(p));
    }
    for q in [PowerQos::SystemManaged, PowerQos::Eco, PowerQos::High] {
        assert_eq!(PowerQos::from_config_str(q.config_name()), Some(q));
    }
    assert_eq!(CpuPriority::VeryLow.config_name(), "Idle");
    assert_eq!(CpuPriority::VeryHigh.config_name(), "High");
}

#[test]
fn defaults_are_normal_and_system_managed() {
    assert_eq!(CpuPriority::default(), CpuPriority::Normal);
    assert_eq!(IoPriority::default(), IoPriority::Normal);
    assert_eq!(PowerQos::default(), PowerQos::SystemManaged);
}

#[test]
fn io_priority_raw_values() {
    assert_eq!(IoPriority::VeryLow.as_raw(), 0);
    assert_eq!(IoPriority::Low.as_raw(), 1);
    assert_eq!(IoPriority::Normal.as_raw(), 2);
}

#[test]
fn nt_status_success_is_non_negative() {
    assert!(nt_status_is_success(0));
    assert!(nt_status_is_success(0x103));
    assert!(!nt_status_is_success(-1073741790));
}

#[test]
fn power_qos_throttling_requests() {
    assert_eq!(
        PowerQos::SystemManaged.power_throttling(),
        PowerThrottling { control_execution_speed: false, throttle_execution_speed: false }
    );
    assert_eq!(
        PowerQos::Eco.power_throttling(),
        PowerThrottling { control_execution_speed: true, throttle_execution_speed: true }
    );
    assert_eq!(
        PowerQos::High.power_throttling(),
        PowerThrottling { control_execution_speed: true, throttle_execution_speed: false }
    );
}

#[test]
fn all_priorities_are_changed_in_order() {
    let config = AppPriorityConfig {
        cpu: Some(CpuPriority::VeryLow),
        io: Some(IoPriority::Low),
        power: Some(PowerQos::Eco),
    };
    assert_eq!(
        priority_changes(&config),
        vec![
            PriorityChange::Cpu(CpuPriority::VeryLow),
            PriorityChange::Io(1),
            PriorityChange::Power(PowerThrottling { control_execution_speed: true, throttle_execution_speed: true }),
        ]
    );
}

#[test]
fn unset_priorities_are_not_changed() {
    let none = AppPriorityConfig { cpu: None, io: None, power: None };
    assert_eq!(priority_changes(&none), vec![]);
    let io_only = AppPriorityConfig { cpu: None, io: Some(IoPriority::Normal), power: None };
    assert_eq!(priority_changes(&io_only), vec![PriorityChange::Io(2)]);
    let cpu_power = AppPriorityConfig { cpu: Some(CpuPriority::High), io: None, power: Some(PowerQos::High) };
    assert_eq!(
        priority_changes(&cpu_power),
        vec![
            PriorityChange::Cpu(CpuPriority::High),
            PriorityChange::Power(PowerThrottling { control_execution_speed: true, throttle_execution_speed: false }),
        ]
    );
}

#[test]
fn efficiency_mode_is_lowest_priorities_and_eco() {
    let c = efficiency_mode_priorities();
    assert_eq!(c, AppPriorityConfig { cpu: Some(CpuPriority::VeryLow), io: Some(IoPriority::VeryLow), power: Some(PowerQos::Eco) });
    assert_eq!(priority_changes(&c).len(), 3);
}
