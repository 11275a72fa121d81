//! The hardware snapshot that a probe hands to the engine.

use vstd::prelude::*;
use crate::engine::config::TestConfig;

verus! {

/// Hardware information detected by the system
#[derive(Debug, Clone)]
pub struct HardwareInfo {
    pub system_info: SystemInfo,
    pub cpu_info: CpuInfo,
    pub memory_info: MemoryInfo,
    pub storage_devices: Vec<StorageDevice>,
    pub virtualization: Option<VirtualizationType>,
    pub thermal_sensors: Vec<ThermalSensor>,
}

/// System information
#[derive(Debug, Clone)]
pub struct SystemInfo {
    pub hostname: String,
    pub os_name: String,
    pub os_version: String,
    pub kernel_version: String,
}

/// CPU information
#[derive(Debug, Clone)]
pub struct CpuInfo {
    pub model_name: String,
    pub vendor: String,
    pub physical_cores: u32,
    pub logical_cores: u32,
    /// Clock frequency in kHz.
    pub frequency_khz: u64,
    /// Cache levels by name (L1, L2, L3) with their sizes in bytes.
    pub cache_sizes: Vec<(String, u64)>,
    pub features: Vec<String>,
}

impl CpuInfo {
    /// Whether the cache sizes are those of a well-formed record: no cache
    /// level is named twice.
    pub open spec fn has_distinct_caches(self) -> bool {
        forall|i: int, j: int|
            0 <= i < j < self.cache_sizes@.len() ==> (#[trigger] self.cache_sizes@[i]).0@ != (
            #[trigger] self.cache_sizes@[j]).0@
    }
}

/// Memory information
#[derive(Debug, Clone)]
pub struct MemoryInfo {
    pub total_bytes: u64,
    pub available_bytes: u64,
    pub speed_mhz: Option<u32>,
    pub ecc_enabled: Option<bool>,
}

/// Storage device information
#[derive(Debug, Clone)]
pub struct StorageDevice {
    pub name: String,
    pub model: String,
    pub device_type: StorageType,
    pub size_bytes: u64,
    pub mount_point: Option<String>,
    pub filesystem: Option<String>,
    pub smart_supported: bool,
}

/// Storage device type
#[derive(Debug, Clone, Copy, PartialEq, Eq, Structural)]
pub enum StorageType {
    HDD,
    SSD,
    NVMe,
    Virtual,
    Unknown,
}

/// Virtualization type
#[derive(Debug, Clone, Copy, PartialEq, Eq, Structural)]
pub enum VirtualizationType {
    KVM,
    VMware,
    VirtualBox,
    Xen,
    HyperV,
    Docker,
    LXC,
    Unknown,
}

/// Thermal sensor information
#[derive(Debug, Clone)]
pub struct ThermalSensor {
    pub name: String,
    pub location: String,
    /// Current temperature in thousandths of a degree Celsius.
    pub current_temp_millicelsius: i32,
    /// Critical temperature in thousandths of a degree Celsius, if the sensor reports one.
    pub critical_temp_millicelsius: Option<i32>,
}

/// System profile for adaptive test configuration
#[derive(Debug, Clone)]
pub struct SystemProfile {
    pub hardware_info: HardwareInfo,
}

/// Bytes in one GiB.
pub const GIB: u64 = 1_073_741_824;

/// Whether the machine is a container rather than a full virtual machine.
pub open spec fn is_container(kind: VirtualizationType) -> bool {
    kind == VirtualizationType::Docker || kind == VirtualizationType::LXC
}

/// The stress level for a machine of the given virtualization: unchanged on
/// bare metal, seven tenths in a container, eight tenths in a virtual
/// machine, rounded to the nearest level with halves rounded up.
pub open spec fn adjusted_stress_level(level: u8, virtualization: Option<VirtualizationType>) -> int {
    match virtualization {
        None => level as int,
        Some(kind) => if is_container(kind) {
            (7 * level + 5) / 10
        } else {
            (8 * level + 5) / 10
        },
    }
}

/// Whether thermal monitoring stays on: a container cannot see the sensors.
pub open spec fn adjusted_thermal_monitoring(
    monitoring: bool,
    virtualization: Option<VirtualizationType>,
) -> bool {
    match virtualization {
        Some(kind) => if is_container(kind) {
            false
        } else {
            monitoring
        },
        None => monitoring,
    }
}

/// The share of memory to test: half with less than 2 GiB available, 70 %
/// with less than 8 GiB, else as configured.
pub open spec fn adjusted_memory_percent(percent: u8, available_bytes: u64) -> int {
    if available_bytes < 2 * GIB {
        50
    } else if available_bytes < 8 * GIB {
        70
    } else {
        percent as int
    }
}

/// The number of worker threads: as configured, or in automatic mode (0)
/// three quarters of the logical cores, rounded to the nearest with halves
/// rounded up, and at least one.
pub open spec fn adjusted_threads(threads: u32, logical_cores: u32) -> int {
    if threads != 0 {
        threads as int
    } else if (3 * logical_cores + 2) / 4 == 0 {
        1
    } else {
        (3 * logical_cores + 2) / 4
    }
}

impl SystemProfile {
    /// Create a new system profile from hardware information
    pub fn new(hardware_info: HardwareInfo) -> (profile: Self)
        ensures
            profile.hardware_info == hardware_info,
    {
        Self { hardware_info }
    }

    /// Optimize test configuration based on detected hardware. The stress
    /// level, the thermal monitoring, the memory share and the thread count
    /// are adjusted to the machine; every other setting is that of the base.
    pub fn optimize_test_config(&self, base_config: &TestConfig) -> (optimized: TestConfig)
        ensures
            optimized.stress_level == adjusted_stress_level(
                base_config.stress_level,
                self.hardware_info.virtualization,
            ),
            optimized.thermal_monitoring == adjusted_thermal_monitoring(
                base_config.thermal_monitoring,
                self.hardware_info.virtualization,
            ),
            optimized.memory_test_size_percent == adjusted_memory_percent(
                base_config.memory_test_size_percent,
                self.hardware_info.memory_info.available_bytes,
            ),
            optimized.threads == adjusted_threads(
                base_config.threads,
                self.hardware_info.cpu_info.logical_cores,
            ),
            optimized.agrees_with(
                TestConfig {
                    stress_level: optimized.stress_level,
                    thermal_monitoring: optimized.thermal_monitoring,
                    memory_test_size_percent: optimized.memory_test_size_percent,
                    threads: optimized.threads,
                    ..*base_config
                },
            ),
    {
        let mut optimized = base_config.duplicate();
        match self.hardware_info.virtualization {
            Some(VirtualizationType::Docker) | Some(VirtualizationType::LXC) => {
                optimized.stress_level = ((7 * optimized.stress_level as u32 + 5) / 10) as u8;
                optimized.thermal_monitoring = false;
            },
            Some(_) => {
                optimized.stress_level = ((8 * optimized.stress_level as u32 + 5) / 10) as u8;
            },
            None => {},
        }
        let available = self.hardware_info.memory_info.available_bytes;
        if available < 2 * GIB {
            optimized.memory_test_size_percent = 50;
        } else if available < 8 * GIB {
            optimized.memory_test_size_percent = 70;
        }
        if optimized.threads == 0 {
            let cores = self.hardware_info.cpu_info.logical_cores;
            optimized.threads = ((3 * cores as u64 + 2) / 4) as u32;
            if optimized.threads == 0 {
                optimized.threads = 1;
            }
        }
        optimized
    }
}


} // verus!
