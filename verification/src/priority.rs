//! The three kinds of priority a process can be given, and how a value of
//! each is named in the configuration (ASCII case-insensitively).

use vstd::prelude::*;
use crate::config::AppPriorityConfig;
use crate::text::{ascii_lower_code, eq_ignore_ascii_case, eq_ignore_ascii_case_spec};

verus! {

/// A CPU priority class, from the lowest to the highest.
#[derive(Debug, Clone, Copy, PartialEq, Eq, Structural)]
pub enum CpuPriority {
    /// The `Idle` class.
    VeryLow,
    /// The `BelowNormal` class.
    Low,
    /// The `Normal` class.
    Normal,
    /// The `AboveNormal` class.
    High,
    /// The `High` class.
    VeryHigh,
}

/// An I/O priority, from the lowest to the normal one.
#[derive(Debug, Clone, Copy, PartialEq, Eq, Structural)]
pub enum IoPriority {
    VeryLow,
    Low,
    Normal,
}

/// A power-throttling (quality of service) setting.
#[derive(Debug, Clone, Copy, PartialEq, Eq, Structural)]
pub enum PowerQos {
    /// Windows chooses the QoS using its own heuristics.
    SystemManaged,
    /// Prefer energy-efficient cores, frequencies and scheduling.
    Eco,
    /// Explicitly request performance-oriented execution.
    High,
}

impl Default for CpuPriority {
    fn default() -> (r: CpuPriority)
        ensures
            r == CpuPriority::Normal,
    {
        CpuPriority::Normal
    }
}

impl Default for IoPriority {
    fn default() -> (r: IoPriority)
        ensures
            r == IoPriority::Normal,
    {
        IoPriority::Normal
    }
}

impl Default for PowerQos {
    fn default() -> (r: PowerQos)
        ensures
            r == PowerQos::SystemManaged,
    {
        PowerQos::SystemManaged
    }
}

/// The name under which the configuration writes a CPU priority.
pub open spec fn cpu_priority_name(p: CpuPriority) -> Seq<char> {
    match p {
        CpuPriority::VeryLow => seq!['I', 'd', 'l', 'e'],
        CpuPriority::Low => seq!['B', 'e', 'l', 'o', 'w', 'N', 'o', 'r', 'm', 'a', 'l'],
        CpuPriority::Normal => seq!['N', 'o', 'r', 'm', 'a', 'l'],
        CpuPriority::High => seq!['A', 'b', 'o', 'v', 'e', 'N', 'o', 'r', 'm', 'a', 'l'],
        CpuPriority::VeryHigh => seq!['H', 'i', 'g', 'h'],
    }
}

/// The name under which the configuration writes an I/O priority.
pub open spec fn io_priority_name(p: IoPriority) -> Seq<char> {
    match p {
        IoPriority::VeryLow => seq!['V', 'e', 'r', 'y', 'L', 'o', 'w'],
        IoPriority::Low => seq!['L', 'o', 'w'],
        IoPriority::Normal => seq!['N', 'o', 'r', 'm', 'a', 'l'],
    }
}

/// The name under which the configuration writes a power QoS.
pub open spec fn power_qos_name(q: PowerQos) -> Seq<char> {
    match q {
        PowerQos::SystemManaged => seq!['S', 'y', 's', 't', 'e', 'm', 'M', 'a', 'n', 'a', 'g', 'e', 'd'],
        PowerQos::Eco => seq!['E', 'c', 'o'],
        PowerQos::High => seq!['H', 'i', 'g', 'h'],
    }
}

/// The CPU priority that a configuration value names, if any.
pub open spec fn cpu_priority_from_name(v: Seq<char>) -> Option<CpuPriority> {
    if eq_ignore_ascii_case_spec(v, cpu_priority_name(CpuPriority::VeryLow)) {
        Some(CpuPriority::VeryLow)
    } else if eq_ignore_ascii_case_spec(v, cpu_priority_name(CpuPriority::Low)) {
        Some(CpuPriority::Low)
    } else if eq_ignore_ascii_case_spec(v, cpu_priority_name(CpuPriority::Normal)) {
        Some(CpuPriority::Normal)
    } else if eq_ignore_ascii_case_spec(v, cpu_priority_name(CpuPriority::High)) {
        Some(CpuPriority::High)
    } else if eq_ignore_ascii_case_spec(v, cpu_priority_name(CpuPriority::VeryHigh)) {
        Some(CpuPriority::VeryHigh)
    } else {
        None
    }
}

/// The I/O priority that a configuration value names, if any.
pub open spec fn io_priority_from_name(v: Seq<char>) -> Option<IoPriority> {
    if eq_ignore_ascii_case_spec(v, io_priority_name(IoPriority::VeryLow)) {
        Some(IoPriority::VeryLow)
    } else if eq_ignore_ascii_case_spec(v, io_priority_name(IoPriority::Low)) {
        Some(IoPriority::Low)
    } else if eq_ignore_ascii_case_spec(v, io_priority_name(IoPriority::Normal)) {
        Some(IoPriority::Normal)
    } else {
        None
    }
}

/// The power QoS that a configuration value names, if any.
pub open spec fn power_qos_from_name(v: Seq<char>) -> Option<PowerQos> {
    if eq_ignore_ascii_case_spec(v, power_qos_name(PowerQos::SystemManaged)) {
        Some(PowerQos::SystemManaged)
    } else if eq_ignore_ascii_case_spec(v, power_qos_name(PowerQos::Eco)) {
        Some(PowerQos::Eco)
    } else if eq_ignore_ascii_case_spec(v, power_qos_name(PowerQos::High)) {
        Some(PowerQos::High)
    } else {
        None
    }
}

impl CpuPriority {
    /// Parses a configuration value, ignoring ASCII case.
    pub fn from_config_str(value: &str) -> (r: Option<CpuPriority>)
        ensures
            r == cpu_priority_from_name(value@),
    {
        proof {
            reveal_strlit("Idle");
            reveal_strlit("BelowNormal");
            reveal_strlit("Normal");
            reveal_strlit("AboveNormal");
            reveal_strlit("High");
        }
        if eq_ignore_ascii_case(value, "Idle") {
            Some(CpuPriority::VeryLow)
        } else if eq_ignore_ascii_case(value, "BelowNormal") {
            Some(CpuPriority::Low)
        } else if eq_ignore_ascii_case(value, "Normal") {
            Some(CpuPriority::Normal)
        } else if eq_ignore_ascii_case(value, "AboveNormal") {
            Some(CpuPriority::High)
        } else if eq_ignore_ascii_case(value, "High") {
            Some(CpuPriority::VeryHigh)
        } else {
            None
        }
    }

    /// The name of this priority in the configuration.
    pub fn config_name(self) -> (r: &'static str)
        ensures
            r@ == cpu_priority_name(self),
    {
        proof {
            reveal_strlit("Idle");
            reveal_strlit("BelowNormal");
            reveal_strlit("Normal");
            reveal_strlit("AboveNormal");
            reveal_strlit("High");
        }
        match self {
            CpuPriority::VeryLow => "Idle",
            CpuPriority::Low => "BelowNormal",
            CpuPriority::Normal => "Normal",
            CpuPriority::High => "AboveNormal",
            CpuPriority::VeryHigh => "High",
        }
    }
}

impl IoPriority {
    /// Parses a configuration value, ignoring ASCII case.
    pub fn from_config_str(value: &str) -> (r: Option<IoPriority>)
        ensures
            r == io_priority_from_name(value@),
    {
        proof {
            reveal_strlit("VeryLow");
            reveal_strlit("Low");
            reveal_strlit("Normal");
        }
        if eq_ignore_ascii_case(value, "VeryLow") {
            Some(IoPriority::VeryLow)
        } else if eq_ignore_ascii_case(value, "Low") {
            Some(IoPriority::Low)
        } else if eq_ignore_ascii_case(value, "Normal") {
            Some(IoPriority::Normal)
        } else {
            None
        }
    }

    /// The name of this priority in the configuration.
    pub fn config_name(self) -> (r: &'static str)
        ensures
            r@ == io_priority_name(self),
    {
        proof {
            reveal_strlit("VeryLow");
            reveal_strlit("Low");
            reveal_strlit("Normal");
        }
        match self {
            IoPriority::VeryLow => "VeryLow",
            IoPriority::Low => "Low",
            IoPriority::Normal => "Normal",
        }
    }
}

impl PowerQos {
    /// Parses a configuration value, ignoring ASCII case.
    pub fn from_config_str(value: &str) -> (r: Option<PowerQos>)
        ensures
            r == power_qos_from_name(value@),
    {
        proof {
            reveal_strlit("SystemManaged");
            reveal_strlit("Eco");
            reveal_strlit("High");
        }
        if eq_ignore_ascii_case(value, "SystemManaged") {
            Some(PowerQos::SystemManaged)
        } else if eq_ignore_ascii_case(value, "Eco") {
            Some(PowerQos::Eco)
        } else if eq_ignore_ascii_case(value, "High") {
            Some(PowerQos::High)
        } else {
            None
        }
    }

    /// The name of this setting in the configuration.
    pub fn config_name(self) -> (r: &'static str)
        ensures
            r@ == power_qos_name(self),
    {
        proof {
            reveal_strlit("SystemManaged");
            reveal_strlit("Eco");
            reveal_strlit("High");
        }
        match self {
            PowerQos::SystemManaged => "SystemManaged",
            PowerQos::Eco => "Eco",
            PowerQos::High => "High",
        }
    }
}


/// The raw value of an I/O priority hint, as the native
/// process-information call takes it.
pub open spec fn io_priority_value(p: IoPriority) -> u32 {
    match p {
        IoPriority::VeryLow => 0,
        IoPriority::Low => 1,
        IoPriority::Normal => 2,
    }
}

impl IoPriority {
    /// The raw value of this I/O priority hint.
    pub fn as_raw(self) -> (r: u32)
        ensures
            r == io_priority_value(self),
    {
        match self {
            IoPriority::VeryLow => 0,
            IoPriority::Low => 1,
            IoPriority::Normal => 2,
        }
    }
}

/// Whether a native status code reports success (it is not negative).
pub fn nt_status_is_success(status: i32) -> (r: bool)
    ensures
        r == (status >= 0),
{
    status >= 0
}

/// A power-throttling request for the execution-speed policy: whether the
/// policy is controlled explicitly, and if so whether throttling is on.
#[derive(Debug, Clone, Copy, PartialEq, Eq, Structural)]
pub struct PowerThrottling {
    /// The execution-speed bit is set in the control mask.
    pub control_execution_speed: bool,
    /// The execution-speed bit is set in the state mask.
    pub throttle_execution_speed: bool,
}

/// The power-throttling request that a power QoS stands for.
pub open spec fn power_throttling_spec(q: PowerQos) -> PowerThrottling {
    match q {
        PowerQos::SystemManaged => PowerThrottling { control_execution_speed: false, throttle_execution_speed: false },
        PowerQos::Eco => PowerThrottling { control_execution_speed: true, throttle_execution_speed: true },
        PowerQos::High => PowerThrottling { control_execution_speed: true, throttle_execution_speed: false },
    }
}

impl PowerQos {
    /// The power-throttling request for this QoS: `SystemManaged` leaves the
    /// decision to Windows, `Eco` turns execution-speed throttling on, and
    /// `High` turns it off.
    pub fn power_throttling(self) -> (r: PowerThrottling)
        ensures
            r == power_throttling_spec(self),
    {
        match self {
            PowerQos::SystemManaged => PowerThrottling { control_execution_speed: false, throttle_execution_speed: false },
            PowerQos::Eco => PowerThrottling { control_execution_speed: true, throttle_execution_speed: true },
            PowerQos::High => PowerThrottling { control_execution_speed: true, throttle_execution_speed: false },
        }
    }
}

/// One change to a process's priorities.
#[derive(Debug, Clone, Copy, PartialEq, Eq, Structural)]
pub enum PriorityChange {
    /// Set the CPU priority class.
    Cpu(CpuPriority),
    /// Set the I/O priority hint to this raw value.
    Io(u32),
    /// Set the execution-speed power throttling.
    Power(PowerThrottling),
}

/// The changes that applying `config` makes, in the order they are made:
/// CPU, then I/O, then power, each only if it is set.
pub open spec fn priority_changes_spec(config: AppPriorityConfig) -> Seq<PriorityChange> {
    let cpu = match config.cpu {
        Some(p) => seq![PriorityChange::Cpu(p)],
        None => Seq::empty(),
    };
    let io = match config.io {
        Some(p) => seq![PriorityChange::Io(io_priority_value(p))],
        None => Seq::empty(),
    };
    let power = match config.power {
        Some(q) => seq![PriorityChange::Power(power_throttling_spec(q))],
        None => Seq::empty(),
    };
    cpu + io + power
}

/// The changes to make, in order, to give a process the priorities of
/// `config`; they are applied one after the other, and the first that fails
/// ends the application.
pub fn priority_changes(config: &AppPriorityConfig) -> (v: Vec<PriorityChange>)
    ensures
        v@ == priority_changes_spec(*config),
{
    let mut v: Vec<PriorityChange> = Vec::new();
    if let Some(p) = config.cpu {
        v.push(PriorityChange::Cpu(p));
    }
    if let Some(p) = config.io {
        v.push(PriorityChange::Io(p.as_raw()));
    }
    if let Some(q) = config.power {
        v.push(PriorityChange::Power(q.power_throttling()));
    }
    assert(v@ =~= priority_changes_spec(*config));
    v
}

/// The priorities of efficiency mode, which the program gives itself: the
/// lowest CPU class, the lowest I/O priority, and power throttling.
pub open spec fn efficiency_mode_spec() -> AppPriorityConfig {
    AppPriorityConfig {
        cpu: Some(CpuPriority::VeryLow),
        io: Some(IoPriority::VeryLow),
        power: Some(PowerQos::Eco),
    }
}

/// The priorities of efficiency mode.
pub fn efficiency_mode_priorities() -> (c: AppPriorityConfig)
    ensures
        c == efficiency_mode_spec(),
{
    AppPriorityConfig {
        cpu: Some(CpuPriority::VeryLow),
        io: Some(IoPriority::VeryLow),
        power: Some(PowerQos::Eco),
    }
}

/// A priority that is not set is not changed, and one that is set is changed
/// exactly once, to the configured value.
pub proof fn lemma_unset_priorities_are_not_changed(config: AppPriorityConfig)
    ensures
        (exists|i: int| 0 <= i < priority_changes_spec(config).len()
            && priority_changes_spec(config)[i] is Cpu) <==> config.cpu is Some,
        (exists|i: int| 0 <= i < priority_changes_spec(config).len()
            && priority_changes_spec(config)[i] is Io) <==> config.io is Some,
        (exists|i: int| 0 <= i < priority_changes_spec(config).len()
            && priority_changes_spec(config)[i] is Power) <==> config.power is Some,
        priority_changes_spec(config).len() == (if config.cpu is Some { 1int } else { 0 })
            + (if config.io is Some { 1int } else { 0 }) + (if config.power is Some { 1int } else { 0 }),
{
    let v = priority_changes_spec(config);
    if config.cpu is Some {
        assert(v[0] is Cpu);
    }
    if config.io is Some {
        let k: int = if config.cpu is Some { 1 } else { 0 };
        assert(v[k] is Io);
    }
    if config.power is Some {
        assert(v[v.len() - 1] is Power);
    }
}

/// The order in which changes are made: CPU, then I/O, then power.
pub open spec fn change_rank(c: PriorityChange) -> int {
    match c {
        PriorityChange::Cpu(_) => 0,
        PriorityChange::Io(_) => 1,
        PriorityChange::Power(_) => 2,
    }
}

/// Applying a group's priorities changes exactly what the group sets, to the
/// values it sets: its CPU class; its I/O priority as the raw hint 0
/// (`VeryLow`), 1 (`Low`) or 2 (`Normal`); and its power QoS as execution-speed
/// throttling that is controlled unless the QoS is `SystemManaged` and on
/// only for `Eco`. Each change is made once, CPU before I/O before power.
pub proof fn lemma_priority_changes_match_config(config: AppPriorityConfig)
    ensures
        ({
            let v = priority_changes_spec(config);
            &&& forall|i: int| 0 <= i < v.len() ==> (#[trigger] v[i] is Cpu ==> config.cpu == Some(v[i]->Cpu_0))
            &&& forall|i: int| 0 <= i < v.len() ==> (#[trigger] v[i] is Io ==> config.io is Some && v[i]->Io_0 == match config.io->Some_0 {
                IoPriority::VeryLow => 0u32,
                IoPriority::Low => 1u32,
                IoPriority::Normal => 2u32,
            })
            &&& forall|i: int| 0 <= i < v.len() ==> (#[trigger] v[i] is Power ==> config.power is Some
                && v[i]->Power_0.control_execution_speed == (config.power->Some_0 != PowerQos::SystemManaged)
                && v[i]->Power_0.throttle_execution_speed == (config.power->Some_0 == PowerQos::Eco))
            &&& config.cpu is Some ==> exists|i: int| 0 <= i < v.len() && #[trigger] v[i] is Cpu
            &&& config.io is Some ==> exists|i: int| 0 <= i < v.len() && #[trigger] v[i] is Io
            &&& config.power is Some ==> exists|i: int| 0 <= i < v.len() && #[trigger] v[i] is Power
            &&& forall|i: int, j: int| 0 <= i < j < v.len() ==> change_rank(#[trigger] v[i]) < change_rank(#[trigger] v[j])
        }),
{
    let v = priority_changes_spec(config);
    lemma_unset_priorities_are_not_changed(config);
    assert forall|i: int, j: int| 0 <= i < j < v.len() implies change_rank(#[trigger] v[i]) < change_rank(#[trigger] v[j]) by {
        let nc: int = if config.cpu is Some { 1 } else { 0 };
        let ni: int = if config.io is Some { 1 } else { 0 };
        assert(forall|k: int| 0 <= k < nc ==> #[trigger] v[k] is Cpu);
        assert(forall|k: int| nc <= k < nc + ni ==> #[trigger] v[k] is Io);
        assert(forall|k: int| nc + ni <= k < v.len() ==> #[trigger] v[k] is Power);
    }
}

/// Each CPU priority is read back from its own configuration name.
pub proof fn lemma_cpu_priority_name_round_trip(p: CpuPriority)
    ensures
        cpu_priority_from_name(cpu_priority_name(p)) == Some(p),
{
    let idle = cpu_priority_name(CpuPriority::VeryLow);
    let below = cpu_priority_name(CpuPriority::Low);
    let above = cpu_priority_name(CpuPriority::High);
    let high = cpu_priority_name(CpuPriority::VeryHigh);
    assert(ascii_lower_code(below[0]) != ascii_lower_code(above[0]));
    assert(ascii_lower_code(high[0]) != ascii_lower_code(idle[0]));
}

/// Each I/O priority is read back from its own configuration name.
pub proof fn lemma_io_priority_name_round_trip(p: IoPriority)
    ensures
        io_priority_from_name(io_priority_name(p)) == Some(p),
{
}

/// Each power QoS is read back from its own configuration name.
pub proof fn lemma_power_qos_name_round_trip(q: PowerQos)
    ensures
        power_qos_from_name(power_qos_name(q)) == Some(q),
{
}

proof fn lemma_eq_ignore_case_trans(a: Seq<char>, b: Seq<char>, c: Seq<char>)
    requires
        eq_ignore_ascii_case_spec(a, b),
    ensures
        eq_ignore_ascii_case_spec(a, c) == eq_ignore_ascii_case_spec(b, c),
{
    if eq_ignore_ascii_case_spec(a, c) {
        assert forall|i: int| 0 <= i < b.len() implies ascii_lower_code(#[trigger] b[i]) == ascii_lower_code(c[i]) by {
            assert(ascii_lower_code(a[i]) == ascii_lower_code(b[i]));
        }
    }
    if eq_ignore_ascii_case_spec(b, c) {
        assert forall|i: int| 0 <= i < a.len() implies ascii_lower_code(#[trigger] a[i]) == ascii_lower_code(c[i]) by {
            assert(ascii_lower_code(a[i]) == ascii_lower_code(b[i]));
        }
    }
}

/// Configuration values are case-insensitive: two values that differ only in
/// the case of ASCII letters name the same priorities (or none).
pub proof fn lemma_config_values_ignore_ascii_case(v: Seq<char>, w: Seq<char>)
    requires
        eq_ignore_ascii_case_spec(v, w),
    ensures
        cpu_priority_from_name(v) == cpu_priority_from_name(w),
        io_priority_from_name(v) == io_priority_from_name(w),
        power_qos_from_name(v) == power_qos_from_name(w),
{
    lemma_eq_ignore_case_trans(v, w, cpu_priority_name(CpuPriority::VeryLow));
    lemma_eq_ignore_case_trans(v, w, cpu_priority_name(CpuPriority::Low));
    lemma_eq_ignore_case_trans(v, w, cpu_priority_name(CpuPriority::Normal));
    lemma_eq_ignore_case_trans(v, w, cpu_priority_name(CpuPriority::High));
    lemma_eq_ignore_case_trans(v, w, cpu_priority_name(CpuPriority::VeryHigh));
    lemma_eq_ignore_case_trans(v, w, io_priority_name(IoPriority::VeryLow));
    lemma_eq_ignore_case_trans(v, w, io_priority_name(IoPriority::Low));
    lemma_eq_ignore_case_trans(v, w, io_priority_name(IoPriority::Normal));
    lemma_eq_ignore_case_trans(v, w, power_qos_name(PowerQos::SystemManaged));
    lemma_eq_ignore_case_trans(v, w, power_qos_name(PowerQos::Eco));
    lemma_eq_ignore_case_trans(v, w, power_qos_name(PowerQos::High));
}

} // verus!
