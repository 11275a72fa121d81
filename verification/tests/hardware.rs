use std::path::PathBuf;
use std::time::Duration;

use burnin::engine::config::{
    file_size_from_mib, select_components, update_config_from_args, Component, TestConfig,
};
use burnin::engine::hardware::{
    CpuInfo, HardwareInfo, MemoryInfo, SystemInfo, SystemProfile, VirtualizationType,
};

fn machine(virtualization: Option<VirtualizationType>, available_bytes: u64, cores: u32) -> SystemProfile {
    SystemProfile::new(HardwareInfo {
        system_info: SystemInfo {
            hostname: "h".to_string(),
            os_name: "os".to_string(),
            os_version: "1".to_string(),
            kernel_version: "k".to_string(),
        },
        cpu_info: CpuInfo {
            model_name: "m".to_string(),
            vendor: "v".to_string(),
            physical_cores: cores / 2,
            logical_cores: cores,
            frequency_khz: 3_000_000,
            cache_sizes: vec![("L1".to_string(), 32_768)],
            features: vec![],
        },
        memory_info: MemoryInfo {
            total_bytes: available_bytes,
            available_bytes,
            speed_mhz: None,
            ecc_enabled: None,
        },
        storage_devices: vec![],
        virtualization,
        thermal_sensors: vec![],
    })
}

const GIB: u64 = 1_073_741_824;

#[test]
fn bare_metal_with_plenty_of_memory_only_gets_its_threads_set() {
    let base = TestConfig::default();
    let optimized = machine(None, 64 * GIB, 16).optimize_test_config(&base);
    assert_eq!(optimized.stress_level, 8);
    assert!(optimized.thermal_monitoring);
    assert_eq!(optimized.memory_test_size_percent, 80);
    assert_eq!(optimized.threads, 12);
    assert_eq!(optimized.duration, base.duration);
    assert_eq!(optimized.storage_file_size, base.storage_file_size);
    assert_eq!(optimized.thermal_warning_threshold, base.thermal_warning_threshold);
}

#[test]
fn containers_run_at_seven_tenths_without_thermal_monitoring() {
    let base = TestConfig::default();
    for kind in [VirtualizationType::Docker, VirtualizationType::LXC] {
        let optimized = machine(Some(kind), 64 * GIB, 4).optimize_test_config(&base);
        assert_eq!(optimized.stress_level, 6);
        assert!(!optimized.thermal_monitoring);
        assert_eq!(optimized.threads, 3);
    }
}

#[test]
fn virtual_machines_run_at_eight_tenths() {
    let base = TestConfig::default();
    for kind in [
        VirtualizationType::KVM,
        VirtualizationType::VMware,
        VirtualizationType::VirtualBox,
        VirtualizationType::Xen,
        VirtualizationType::HyperV,
        VirtualizationType::Unknown,
    ] {
        let optimized = machine(Some(kind), 64 * GIB, 4).optimize_test_config(&base);
        assert_eq!(optimized.stress_level, 6);
        assert!(optimized.thermal_monitoring);
    }
}

#[test]
fn stress_scaling_agrees_with_rounding_for_every_level_in_use() {
    for level in 0u8..=10 {
        let mut base = TestConfig::default();
        base.stress_level = level;
        let in_container =
            machine(Some(VirtualizationType::Docker), 64 * GIB, 4).optimize_test_config(&base);
        assert_eq!(in_container.stress_level, (f64::from(level) * 0.7).round() as u8);
        let in_vm = machine(Some(VirtualizationType::KVM), 64 * GIB, 4).optimize_test_config(&base);
        assert_eq!(in_vm.stress_level, (f64::from(level) * 0.8).round() as u8);
    }
    let mut base = TestConfig::default();
    base.stress_level = 255;
    let scaled = machine(Some(VirtualizationType::Xen), 64 * GIB, 4).optimize_test_config(&base);
    assert_eq!(scaled.stress_level, 204);
}

#[test]
fn memory_share_shrinks_with_little_memory() {
    let base = TestConfig::default();
    assert_eq!(machine(None, 2 * GIB - 1, 4).optimize_test_config(&base).memory_test_size_percent, 50);
    assert_eq!(machine(None, 2 * GIB, 4).optimize_test_config(&base).memory_test_size_percent, 70);
    assert_eq!(machine(None, 8 * GIB - 1, 4).optimize_test_config(&base).memory_test_size_percent, 70);
    assert_eq!(machine(None, 8 * GIB, 4).optimize_test_config(&base).memory_test_size_percent, 80);
    assert_eq!(machine(None, 0, 4).optimize_test_config(&base).memory_test_size_percent, 50);
}

#[test]
fn automatic_threads_are_three_quarters_of_the_cores() {
    let base = TestConfig::default();
    let threads = |cores: u32| machine(None, 64 * GIB, cores).optimize_test_config(&base).threads;
    assert_eq!(threads(0), 1);
    assert_eq!(threads(1), 1);
    assert_eq!(threads(2), 2);
    assert_eq!(threads(3), 2);
    assert_eq!(threads(4), 3);
    assert_eq!(threads(6), 5);
    assert_eq!(threads(8), 6);
    assert_eq!(threads(128), 96);
    for cores in 0u32..2_000 {
        assert_eq!(threads(cores), ((cores as f32 * 0.75).round() as u32).max(1));
    }
    let mut fixed = TestConfig::default();
    fixed.threads = 7;
    assert_eq!(machine(None, 64 * GIB, 128).optimize_test_config(&fixed).threads, 7);
}

#[test]
fn duplicate_holds_the_same_settings() {
    let mut config = TestConfig::burn_in();
    config.output_file = Some(PathBuf::from("/tmp/report.txt"));
    config.storage_test_paths = vec![PathBuf::from("/a"), PathBuf::from("/b")];
    config.alert_email = Some("ops@example.org".to_string());
    config.alert_webhook_url = Some("https://example.org/hook".to_string());
    config.quiet = true;
    let copy = config.duplicate();
    assert_eq!(copy.duration, Duration::from_secs(8 * 60 * 60));
    assert_eq!(copy.stress_level, 9);
    assert_eq!(copy.output_file, config.output_file);
    assert_eq!(copy.storage_test_paths, config.storage_test_paths);
    assert_eq!(copy.alert_email, config.alert_email);
    assert_eq!(copy.alert_webhook_url, config.alert_webhook_url);
    assert!(copy.quiet);
    assert_eq!(copy.storage_file_size, 2_147_483_648);
}

#[test]
fn a_selection_enables_only_what_it_names() {
    let mut config = TestConfig::default();
    update_config_from_args(
        &mut config,
        &Some(vec![Component::Network, Component::Cpu, Component::Network]),
        None,
        None,
        None,
        None,
        None,
    );
    assert!(config.cpu_enabled);
    assert!(!config.memory_enabled);
    assert!(!config.storage_enabled);
    assert!(config.network_enabled);
    assert!(!config.thermal_enabled);
    assert_eq!(config.stress_level, 8);
    assert_eq!(config.threads, 0);

    let mut config = TestConfig::default();
    select_components(&mut config, &vec![]);
    assert!(!config.cpu_enabled && !config.memory_enabled && !config.storage_enabled);
    assert!(!config.network_enabled && !config.thermal_enabled);
}

#[test]
fn without_arguments_nothing_changes() {
    let mut config = TestConfig::default();
    config.storage_test_paths = vec![PathBuf::from("/keep")];
    update_config_from_args(&mut config, &None, None, None, None, None, None);
    assert!(config.cpu_enabled && config.memory_enabled && config.storage_enabled);
    assert!(!config.network_enabled && config.thermal_enabled);
    assert_eq!(config.threads, 0);
    assert_eq!(config.stress_level, 8);
    assert_eq!(config.memory_test_size_percent, 80);
    assert_eq!(config.storage_test_paths, vec![PathBuf::from("/keep")]);
    assert_eq!(config.storage_file_size, 1_073_741_824);
}

#[test]
fn given_arguments_replace_their_settings() {
    let mut config = TestConfig::default();
    let path = PathBuf::from("/mnt/scratch");
    update_config_from_args(&mut config, &None, Some(6), Some(3), Some(40), Some(&path), Some(256));
    assert_eq!(config.threads, 6);
    assert_eq!(config.stress_level, 3);
    assert_eq!(config.memory_test_size_percent, 40);
    assert_eq!(config.storage_test_paths, vec![PathBuf::from("/mnt/scratch")]);
    assert_eq!(config.storage_file_size, 256 * 1024 * 1024);

    config.storage_test_paths = vec![PathBuf::from("/old"), PathBuf::from("/second")];
    let other = PathBuf::from("/new");
    update_config_from_args(&mut config, &None, None, None, None, Some(&other), None);
    assert_eq!(config.storage_test_paths, vec![PathBuf::from("/new"), PathBuf::from("/second")]);
    assert_eq!(config.threads, 6);
}

#[test]
fn storage_size_is_held_at_the_largest_that_fits() {
    assert_eq!(file_size_from_mib(0), 0);
    assert_eq!(file_size_from_mib(1), 1_048_576);
    assert_eq!(file_size_from_mib(17_592_186_044_415), 17_592_186_044_415 * 1_048_576);
    assert_eq!(file_size_from_mib(17_592_186_044_416), u64::MAX);
    assert_eq!(file_size_from_mib(usize::MAX), u64::MAX);
}

#[test]
fn thread_count_keeps_its_low_thirty_two_bits() {
    let mut config = TestConfig::default();
    update_config_from_args(&mut config, &None, Some(4_294_967_296 + 5), None, None, None, None);
    assert_eq!(config.threads, 5);
}
