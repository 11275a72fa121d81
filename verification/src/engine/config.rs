//! The configuration of one run.

use vstd::prelude::*;
use vstd::string::*;
use std::path::PathBuf;
use std::time::Duration;
use crate::engine::text::text_of;
use crate::engine::time::duration_secs;
use crate::engine::time::duration_subsec_nanos;

verus! {

/// `std::path::PathBuf`, carried through as it is.
#[verifier::external_type_specification]
#[verifier::external_body]
pub struct ExPathBuf(PathBuf);

/// A clone of a path is the same path.
pub assume_specification[ <PathBuf as Clone>::clone ](path: &PathBuf) -> (copy: PathBuf)
    ensures
        copy == *path,
;

/// Output format
#[derive(Debug, Clone, Copy, PartialEq, Eq, Structural)]
pub enum OutputFormat {
    /// Text output
    Text,
    /// JSON output
    Json,
    /// CSV output
    Csv,
}

/// Stress test configuration
#[derive(Debug, Clone)]
pub struct TestConfig {
    /// Duration of the test
    pub duration: Duration,
    /// Stress level (1-10)
    pub stress_level: u8,
    /// Output format
    pub output_format: OutputFormat,
    /// Output file
    pub output_file: Option<PathBuf>,
    /// Thermal monitoring
    pub thermal_monitoring: bool,
    /// Verbose output
    pub verbose: bool,
    /// Quiet output
    pub quiet: bool,
    /// Number of threads
    pub threads: u32,
    /// Memory test size percentage
    pub memory_test_size_percent: u8,
    /// CPU test enabled
    pub cpu_enabled: bool,
    /// Memory test enabled
    pub memory_enabled: bool,
    /// Storage test enabled
    pub storage_enabled: bool,
    /// Network test enabled
    pub network_enabled: bool,
    /// Thermal test enabled
    pub thermal_enabled: bool,
    /// Storage test paths
    pub storage_test_paths: Vec<PathBuf>,
    /// Storage file size
    pub storage_file_size: u64,
    /// Thermal warning threshold, in thousandths of a degree Celsius
    pub thermal_warning_threshold: u32,
    /// Thermal critical threshold, in thousandths of a degree Celsius
    pub thermal_critical_threshold: u32,
    /// Thermal monitor interval
    pub thermal_monitor_interval: Duration,
    /// Alert threshold
    pub alert_threshold: u8,
    /// Alert webhook URL
    pub alert_webhook_url: Option<String>,
    /// Alert email
    pub alert_email: Option<String>,
}

/// The three settings that a preset fixes: how long the run lasts, how hard
/// it stresses the machine, and how large the storage test file is.
pub struct Preset {
    pub duration_secs: u64,
    pub stress_level: u8,
    pub storage_file_size: u64,
}

/// The quick preset: fifteen minutes at level 6 with a 512 MiB file.
pub open spec fn quick_preset() -> Preset {
    Preset { duration_secs: 900, stress_level: 6, storage_file_size: 536_870_912 }
}

/// The standard preset: two hours at level 8 with a 1 GiB file.
pub open spec fn standard_preset() -> Preset {
    Preset { duration_secs: 7200, stress_level: 8, storage_file_size: 1_073_741_824 }
}

/// The full preset: eight hours at level 9 with a 2 GiB file.
pub open spec fn full_preset() -> Preset {
    Preset { duration_secs: 28800, stress_level: 9, storage_file_size: 2_147_483_648 }
}

impl TestConfig {
    /// Whether the three preset settings of `self` are those of `preset`.
    pub open spec fn has_preset(self, preset: Preset) -> bool {
        &&& duration_secs(self.duration) == preset.duration_secs
        &&& duration_subsec_nanos(self.duration) == 0
        &&& self.stress_level == preset.stress_level
        &&& self.storage_file_size == preset.storage_file_size
    }

    /// Whether every setting that no preset touches has its default value.
    pub open spec fn has_default_rest(self) -> bool {
        &&& self.output_format == OutputFormat::Text
        &&& self.output_file is None
        &&& self.thermal_monitoring
        &&& !self.verbose
        &&& !self.quiet
        &&& self.threads == 0
        &&& self.memory_test_size_percent == 80
        &&& self.cpu_enabled
        &&& self.memory_enabled
        &&& self.storage_enabled
        &&& !self.network_enabled
        &&& self.thermal_enabled
        &&& self.storage_test_paths@.len() == 0
        &&& self.thermal_warning_threshold == 80_000
        &&& self.thermal_critical_threshold == 90_000
        &&& duration_secs(self.thermal_monitor_interval) == 5
        &&& duration_subsec_nanos(self.thermal_monitor_interval) == 0
        &&& self.alert_threshold == 95
        &&& self.alert_webhook_url is None
        &&& self.alert_email is None
    }

    /// Whether `self` differs from `before` in nothing but the three preset
    /// settings.
    pub open spec fn same_rest_as(self, before: TestConfig) -> bool {
        self == (TestConfig {
            duration: self.duration,
            stress_level: self.stress_level,
            storage_file_size: self.storage_file_size,
            ..before
        })
    }

    /// Whether `self` and `other` hold the same settings.
    pub open spec fn agrees_with(self, other: TestConfig) -> bool {
        &&& self.duration == other.duration
        &&& self.stress_level == other.stress_level
        &&& self.output_format == other.output_format
        &&& self.output_file == other.output_file
        &&& self.thermal_monitoring == other.thermal_monitoring
        &&& self.verbose == other.verbose
        &&& self.quiet == other.quiet
        &&& self.threads == other.threads
        &&& self.memory_test_size_percent == other.memory_test_size_percent
        &&& self.cpu_enabled == other.cpu_enabled
        &&& self.memory_enabled == other.memory_enabled
        &&& self.storage_enabled == other.storage_enabled
        &&& self.network_enabled == other.network_enabled
        &&& self.thermal_enabled == other.thermal_enabled
        &&& self.storage_test_paths@ == other.storage_test_paths@
        &&& self.storage_file_size == other.storage_file_size
        &&& self.thermal_warning_threshold == other.thermal_warning_threshold
        &&& self.thermal_critical_threshold == other.thermal_critical_threshold
        &&& self.thermal_monitor_interval == other.thermal_monitor_interval
        &&& self.alert_threshold == other.alert_threshold
        &&& text_of(self.alert_webhook_url) == text_of(other.alert_webhook_url)
        &&& text_of(self.alert_email) == text_of(other.alert_email)
    }

    /// A copy of the configuration that holds the same settings.
    pub fn duplicate(&self) -> (copy: Self)
        ensures
            copy.agrees_with(*self),
    {
        let mut paths: Vec<PathBuf> = Vec::new();
        let mut i: usize = 0;
        while i < self.storage_test_paths.len()
            invariant
                i <= self.storage_test_paths.len(),
                paths@ == self.storage_test_paths@.take(i as int),
            decreases self.storage_test_paths.len() - i,
        {
            paths.push(self.storage_test_paths[i].clone());
            assert(paths@ =~= self.storage_test_paths@.take(i as int + 1));
            i = i + 1;
        }
        assert(self.storage_test_paths@.take(i as int) =~= self.storage_test_paths@);
        Self {
            duration: self.duration,
            stress_level: self.stress_level,
            output_format: self.output_format,
            output_file: match &self.output_file {
                Some(path) => Some(path.clone()),
                None => None,
            },
            thermal_monitoring: self.thermal_monitoring,
            verbose: self.verbose,
            quiet: self.quiet,
            threads: self.threads,
            memory_test_size_percent: self.memory_test_size_percent,
            cpu_enabled: self.cpu_enabled,
            memory_enabled: self.memory_enabled,
            storage_enabled: self.storage_enabled,
            network_enabled: self.network_enabled,
            thermal_enabled: self.thermal_enabled,
            storage_test_paths: paths,
            storage_file_size: self.storage_file_size,
            thermal_warning_threshold: self.thermal_warning_threshold,
            thermal_critical_threshold: self.thermal_critical_threshold,
            thermal_monitor_interval: self.thermal_monitor_interval,
            alert_threshold: self.alert_threshold,
            alert_webhook_url: match &self.alert_webhook_url {
                Some(url) => Some(url.clone()),
                None => None,
            },
            alert_email: match &self.alert_email {
                Some(email) => Some(email.clone()),
                None => None,
            },
        }
    }

    /// The default configuration with the given preset.
    fn with_preset(secs: u64, stress_level: u8, storage_file_size: u64) -> (config: Self)
        ensures
            config.has_preset(
                Preset { duration_secs: secs, stress_level, storage_file_size },
            ),
            config.has_default_rest(),
    {
        Self {
            duration: Duration::from_secs(secs),
            stress_level,
            output_format: OutputFormat::Text,
            output_file: None,
            thermal_monitoring: true,
            verbose: false,
            quiet: false,
            threads: 0,
            memory_test_size_percent: 80,
            cpu_enabled: true,
            memory_enabled: true,
            storage_enabled: true,
            network_enabled: false,
            thermal_enabled: true,
            storage_test_paths: Vec::new(),
            storage_file_size,
            thermal_warning_threshold: 80_000,
            thermal_critical_threshold: 90_000,
            thermal_monitor_interval: Duration::from_secs(5),
            alert_threshold: 95,
            alert_webhook_url: None,
            alert_email: None,
        }
    }

    /// Sets the three preset settings and leaves the rest alone.
    fn apply_preset(&mut self, secs: u64, stress_level: u8, storage_file_size: u64)
        ensures
            final(self).has_preset(
                Preset { duration_secs: secs, stress_level, storage_file_size },
            ),
            final(self).same_rest_as(*old(self)),
    {
        self.duration = Duration::from_secs(secs);
        self.stress_level = stress_level;
        self.storage_file_size = storage_file_size;
    }

    /// Create stress test configuration
    pub fn stress() -> (config: Self)
        ensures
            config.has_preset(quick_preset()),
            config.has_default_rest(),
    {
        Self::with_preset(15 * 60, 6, 536_870_912)
    }

    /// Create burn-in test configuration
    pub fn burn_in() -> (config: Self)
        ensures
            config.has_preset(full_preset()),
            config.has_default_rest(),
    {
        Self::with_preset(8 * 60 * 60, 9, 2_147_483_648)
    }

    /// Create quick test configuration
    pub fn quick() -> (config: Self)
        ensures
            config.has_preset(quick_preset()),
            config.has_default_rest(),
    {
        Self::with_preset(15 * 60, 6, 536_870_912)
    }

    /// Create standard test configuration
    pub fn standard() -> (config: Self)
        ensures
            config.has_preset(standard_preset()),
            config.has_default_rest(),
    {
        Self::with_preset(2 * 60 * 60, 8, 1_073_741_824)
    }

    /// Create full test configuration
    pub fn full() -> (config: Self)
        ensures
            config.has_preset(full_preset()),
            config.has_default_rest(),
    {
        Self::with_preset(8 * 60 * 60, 9, 2_147_483_648)
    }

    /// Apply stress test preset
    pub fn apply_preset_stress(&mut self)
        ensures
            final(self).has_preset(quick_preset()),
            final(self).same_rest_as(*old(self)),
    {
        self.apply_preset(15 * 60, 6, 536_870_912)
    }

    /// Apply burn-in test preset
    pub fn apply_preset_burn_in(&mut self)
        ensures
            final(self).has_preset(full_preset()),
            final(self).same_rest_as(*old(self)),
    {
        self.apply_preset(8 * 60 * 60, 9, 2_147_483_648)
    }

    /// Apply quick test preset
    pub fn apply_preset_quick(&mut self)
        ensures
            final(self).has_preset(quick_preset()),
            final(self).same_rest_as(*old(self)),
    {
        self.apply_preset(15 * 60, 6, 536_870_912)
    }

    /// Apply standard test preset
    pub fn apply_preset_standard(&mut self)
        ensures
            final(self).has_preset(standard_preset()),
            final(self).same_rest_as(*old(self)),
    {
        self.apply_preset(2 * 60 * 60, 8, 1_073_741_824)
    }

    /// Apply full test preset
    pub fn apply_preset_full(&mut self)
        ensures
            final(self).has_preset(full_preset()),
            final(self).same_rest_as(*old(self)),
    {
        self.apply_preset(8 * 60 * 60, 9, 2_147_483_648)
    }
}

impl Default for TestConfig {
    fn default() -> (config: Self)
        ensures
            config.has_preset(standard_preset()),
            config.has_default_rest(),
    {
        TestConfig::with_preset(2 * 60 * 60, 8, 1_073_741_824)
    }
}

/// The shortest run that is accepted, in seconds: one minute.
pub const MIN_DURATION_SECS: u64 = 60;

/// The longest run that is accepted, in seconds: seven days.
pub const MAX_DURATION_SECS: u64 = 604_800;

/// What `humantime::parse_duration` makes of a text: the whole seconds and the
/// nanoseconds below a second of the duration it reads, or the words of its
/// error.
pub uninterp spec fn humantime_duration(text: Seq<char>) -> std::result::Result<(u64, u32), Seq<char>>;

/// A parsed duration, or the words of the parser's error, as plain values.
pub open spec fn parsed_parts(parsed: std::result::Result<Duration, String>) -> std::result::Result<
    (u64, u32),
    Seq<char>,
> {
    match parsed {
        Ok(duration) => Ok((duration_secs(duration), duration_subsec_nanos(duration))),
        Err(cause) => Err(cause@),
    }
}

/// The verdict on a parsed duration: the parser's error with its preamble, a
/// duration below one minute or above seven days refused, any other accepted
/// as it is.
pub open spec fn duration_verdict(parsed: std::result::Result<(u64, u32), Seq<char>>) -> std::result::Result<
    (u64, u32),
    Seq<char>,
> {
    match parsed {
        Err(cause) => Err("Invalid duration format: "@ + cause),
        Ok((secs, nanos)) => if secs < MIN_DURATION_SECS {
            Err("Duration must be at least 1 minute"@)
        } else if secs > MAX_DURATION_SECS || (secs == MAX_DURATION_SECS && nanos > 0) {
            Err("Duration cannot exceed 7 days"@)
        } else {
            Ok((secs, nanos))
        },
    }
}

/// The most decimal digits that a duration text may hold.
pub const MAX_DURATION_DIGITS: usize = 11;

/// Whether a character is one of the decimal digits `0` to `9`.
pub open spec fn is_decimal_digit(c: char) -> bool {
    '0' <= c && c <= '9'
}

/// How many decimal digits a text holds.
pub open spec fn digit_count(text: Seq<char>) -> nat
    decreases text.len(),
{
    if text.len() == 0 {
        0
    } else {
        digit_count(text.drop_last()) + if is_decimal_digit(text.last()) {
            1nat
        } else {
            0nat
        }
    }
}

/// What is made of a duration text before it is judged: a text with more
/// digits than are read is refused, any other is what the parser makes of it.
pub open spec fn duration_reading(text: Seq<char>) -> std::result::Result<(u64, u32), Seq<char>> {
    if digit_count(text) > MAX_DURATION_DIGITS {
        Err("too many digits"@)
    } else {
        humantime_duration(text)
    }
}

/// Whether a text holds no more decimal digits than a duration text may.
pub fn has_few_digits(text: &str) -> (few: bool)
    ensures
        few == (digit_count(text@) <= MAX_DURATION_DIGITS),
{
    let mut seen: usize = 0;
    for c in it: text.chars()
        invariant
            it.seq() == text@,
            seen <= MAX_DURATION_DIGITS + 1,
            seen <= MAX_DURATION_DIGITS ==> seen == digit_count(text@.take(it.index() as int)),
            seen == MAX_DURATION_DIGITS + 1 ==> digit_count(text@.take(it.index() as int))
                > MAX_DURATION_DIGITS,
    {
        proof {
            let i = it.index() as int;
            assert(c == text@[i]);
            assert(text@.take(i + 1).drop_last() =~= text@.take(i));
            assert(text@.take(i + 1).last() == text@[i]);
        }
        if '0' <= c && c <= '9' && seen <= MAX_DURATION_DIGITS {
            seen = seen + 1;
        }
    }
    assert(text@.take(text@.len() as int) =~= text@);
    seen <= MAX_DURATION_DIGITS
}

/// Reads a duration such as `2h 30m` with `humantime::parse_duration`; an
/// error comes back as the words that humantime gives it.
///
/// humantime adds up the spans of the text with checked arithmetic, but where
/// the fractions of a second add up to exactly one second it leaves the carry
/// to `Duration::new`, which panics when the seconds are already the largest
/// that fit. A text of at most eleven digits cannot get there. A span adds at
/// most the seconds of a year (31 557 600) times its number, and less than two
/// more years for its fraction and its carry; the numbers of all spans
/// together are below 10^11 and the spans are at most eleven; so the seconds
/// stay below 4 * 10^18. Texts with more digits are left out.
#[verifier::external_body]
fn read_duration(text: &str) -> (parsed: std::result::Result<Duration, String>)
    requires
        digit_count(text@) <= MAX_DURATION_DIGITS,
    ensures
        parsed_parts(parsed) == humantime_duration(text@),
{
    match humantime::parse_duration(text) {
        Ok(duration) => Ok(duration),
        Err(error) => Err(error.to_string()),
    }
}

/// What `bytesize::ByteSize`'s `from_str` makes of a text: the number of
/// bytes it reads, or nothing where it refuses the text.
pub uninterp spec fn bytesize_bytes(text: Seq<char>) -> Option<u64>;

/// Reads a size such as `512MB` with the `FromStr` of `bytesize::ByteSize`
/// and hands out its `as_u64`.
#[verifier::external_body]
fn read_byte_size(text: &str) -> (bytes: Option<u64>)
    ensures
        bytes == bytesize_bytes(text@),
{
    match text.parse::<bytesize::ByteSize>() {
        Ok(size) => Some(size.as_u64()),
        Err(_) => None,
    }
}

impl TestConfig {
    /// Decides whether a parsed duration is accepted for a run.
    pub fn admit_duration(parsed: std::result::Result<Duration, String>) -> (r: std::result::Result<
        Duration,
        String,
    >)
        ensures
            parsed_parts(r) == duration_verdict(parsed_parts(parsed)),
            r matches Ok(accepted) ==> parsed == Ok::<Duration, String>(accepted),
    {
        match parsed {
            Err(cause) => Err(String::from_str("Invalid duration format: ").concat(cause.as_str())),
            Ok(duration) => {
                let secs = duration.as_secs();
                let nanos = duration.subsec_nanos();
                if secs < MIN_DURATION_SECS {
                    Err(String::from_str("Duration must be at least 1 minute"))
                } else if secs > MAX_DURATION_SECS || (secs == MAX_DURATION_SECS && nanos > 0) {
                    Err(String::from_str("Duration cannot exceed 7 days"))
                } else {
                    Ok(duration)
                }
            },
        }
    }

    /// Parse duration string. A text with more than eleven digits is refused
    /// unread; any other is read and judged.
    pub fn parse_duration(duration_str: &str) -> (r: std::result::Result<Duration, String>)
        ensures
            parsed_parts(r) == duration_verdict(duration_reading(duration_str@)),
    {
        if has_few_digits(duration_str) {
            TestConfig::admit_duration(read_duration(duration_str))
        } else {
            TestConfig::admit_duration(Err(String::from_str("too many digits")))
        }
    }

    /// What is returned for a size text, given what the size parser made of it.
    pub fn admit_size(size_str: &str, bytes: Option<u64>) -> (r: std::result::Result<u64, String>)
        ensures
            bytes matches Some(n) ==> r == Ok::<u64, String>(n),
            bytes is None ==> (r matches Err(text) && text@ == "Invalid size format: "@ + size_str@),
    {
        match bytes {
            Some(n) => Ok(n),
            None => Err(String::from_str("Invalid size format: ").concat(size_str)),
        }
    }

    /// Parse a size given in bytes, with or without a unit (`1GB`, `512MiB`, `4096`).
    pub fn parse_size_bytes(size_str: &str) -> (r: std::result::Result<u64, String>)
        ensures
            bytesize_bytes(size_str@) matches Some(n) ==> r == Ok::<u64, String>(n),
            bytesize_bytes(size_str@) is None ==> (r matches Err(text) && text@
                == "Invalid size format: "@ + size_str@),
    {
        TestConfig::admit_size(size_str, read_byte_size(size_str))
    }
}


/// System components that can be tested
#[derive(Debug, Clone, Copy, PartialEq, Eq, Structural)]
pub enum Component {
    /// CPU tests
    Cpu,
    /// Memory tests
    Memory,
    /// Storage tests
    Storage,
    /// Network tests
    Network,
    /// Thermal monitoring
    Thermal,
}

/// Bytes in one MiB.
pub const MIB: u64 = 1_048_576;

/// Whether a component is enabled after a selection: with a selection, when
/// the selection names it; without one, as before.
pub open spec fn enabled_after(
    before: bool,
    selection: Option<Vec<Component>>,
    component: Component,
) -> bool {
    match selection {
        Some(list) => list@.contains(component),
        None => before,
    }
}

/// The storage paths after a path was chosen: it takes the first place, or is
/// the only one where there was none.
pub open spec fn paths_after(before: Seq<PathBuf>, chosen: Option<&PathBuf>) -> Seq<PathBuf> {
    match chosen {
        Some(path) => if before.len() == 0 {
            seq![*path]
        } else {
            before.update(0, *path)
        },
        None => before,
    }
}

/// The storage file size after a size in MiB was chosen; a size that does not
/// fit is held at the largest that does.
pub open spec fn file_size_after(before: u64, chosen_mib: Option<usize>) -> int {
    match chosen_mib {
        Some(size) => if size * MIB > u64::MAX {
            u64::MAX as int
        } else {
            size * MIB
        },
        None => before as int,
    }
}

/// Whether `after` differs from `before` in nothing but which components
/// are enabled.
pub open spec fn same_but_components(after: TestConfig, before: TestConfig) -> bool {
    after == (TestConfig {
        cpu_enabled: after.cpu_enabled,
        memory_enabled: after.memory_enabled,
        storage_enabled: after.storage_enabled,
        network_enabled: after.network_enabled,
        thermal_enabled: after.thermal_enabled,
        ..before
    })
}

/// Taking one more component into a selection adds just that component.
proof fn lemma_selection_step(list: Seq<Component>, i: int, c: Component)
    requires
        0 <= i < list.len(),
    ensures
        list.take(i + 1).contains(c) == (list.take(i).contains(c) || c == list[i]),
{
    let before = list.take(i);
    let after = list.take(i + 1);
    if before.contains(c) {
        let j = choose|j: int| 0 <= j < before.len() && before[j] == c;
        assert(after[j] == c);
    }
    if c == list[i] {
        assert(after[i] == c);
    }
    if after.contains(c) {
        let j = choose|j: int| 0 <= j < after.len() && after[j] == c;
        if j < i {
            assert(before[j] == c);
        }
    }
}

/// Enables the components that the selection names and disables the others.
pub fn select_components(config: &mut TestConfig, list: &Vec<Component>)
    ensures
        final(config).cpu_enabled == list@.contains(Component::Cpu),
        final(config).memory_enabled == list@.contains(Component::Memory),
        final(config).storage_enabled == list@.contains(Component::Storage),
        final(config).network_enabled == list@.contains(Component::Network),
        final(config).thermal_enabled == list@.contains(Component::Thermal),
        same_but_components(*final(config), *old(config)),
{
    let mut cpu = false;
    let mut memory = false;
    let mut storage = false;
    let mut network = false;
    let mut thermal = false;
    let mut i: usize = 0;
    while i < list.len()
        invariant
            i <= list.len(),
            cpu == list@.take(i as int).contains(Component::Cpu),
            memory == list@.take(i as int).contains(Component::Memory),
            storage == list@.take(i as int).contains(Component::Storage),
            network == list@.take(i as int).contains(Component::Network),
            thermal == list@.take(i as int).contains(Component::Thermal),
        decreases list.len() - i,
    {
        proof {
            lemma_selection_step(list@, i as int, Component::Cpu);
            lemma_selection_step(list@, i as int, Component::Memory);
            lemma_selection_step(list@, i as int, Component::Storage);
            lemma_selection_step(list@, i as int, Component::Network);
            lemma_selection_step(list@, i as int, Component::Thermal);
        }
        match list[i] {
            Component::Cpu => {
                cpu = true;
            },
            Component::Memory => {
                memory = true;
            },
            Component::Storage => {
                storage = true;
            },
            Component::Network => {
                network = true;
            },
            Component::Thermal => {
                thermal = true;
            },
        }
        i = i + 1;
    }
    assert(list@.take(i as int) =~= list@);
    config.cpu_enabled = cpu;
    config.memory_enabled = memory;
    config.storage_enabled = storage;
    config.network_enabled = network;
    config.thermal_enabled = thermal;
}

/// Puts the chosen storage path in the first place of the list.
pub fn choose_storage_path(paths: &mut Vec<PathBuf>, chosen: &PathBuf)
    ensures
        final(paths)@ == paths_after(old(paths)@, Some(chosen)),
{
    if paths.len() == 0 {
        paths.push(chosen.clone());
        assert(paths@ =~= seq![*chosen]);
    } else {
        paths.set(0, chosen.clone());
    }
}

/// The storage file size for a size given in MiB.
pub fn file_size_from_mib(size: usize) -> (bytes: u64)
    ensures
        bytes == file_size_after(0, Some(size)),
{
    if size as u64 > u64::MAX / MIB {
        u64::MAX
    } else {
        size as u64 * MIB
    }
}

/// Update configuration from command line arguments: each argument that is
/// given replaces its setting, and a selection of components enables those
/// it names and disables the others.
pub fn update_config_from_args(
    config: &mut TestConfig,
    components: &Option<Vec<Component>>,
    threads: Option<usize>,
    stress: Option<u8>,
    memory_size: Option<u8>,
    storage_path: Option<&PathBuf>,
    storage_size: Option<usize>,
)
    ensures
        final(config).cpu_enabled == enabled_after(old(config).cpu_enabled, *components, Component::Cpu),
        final(config).memory_enabled == enabled_after(
            old(config).memory_enabled,
            *components,
            Component::Memory,
        ),
        final(config).storage_enabled == enabled_after(
            old(config).storage_enabled,
            *components,
            Component::Storage,
        ),
        final(config).network_enabled == enabled_after(
            old(config).network_enabled,
            *components,
            Component::Network,
        ),
        final(config).thermal_enabled == enabled_after(
            old(config).thermal_enabled,
            *components,
            Component::Thermal,
        ),
        final(config).threads == (match threads {
            Some(n) => n as u32,
            None => old(config).threads,
        }),
        final(config).stress_level == (match stress {
            Some(level) => level,
            None => old(config).stress_level,
        }),
        final(config).memory_test_size_percent == (match memory_size {
            Some(percent) => percent,
            None => old(config).memory_test_size_percent,
        }),
        final(config).storage_test_paths@ == paths_after(old(config).storage_test_paths@, storage_path),
        final(config).storage_file_size == file_size_after(
            old(config).storage_file_size,
            storage_size,
        ),
        final(config).duration == old(config).duration,
        final(config).output_format == old(config).output_format,
        final(config).output_file == old(config).output_file,
        final(config).thermal_monitoring == old(config).thermal_monitoring,
        final(config).verbose == old(config).verbose,
        final(config).quiet == old(config).quiet,
        final(config).thermal_warning_threshold == old(config).thermal_warning_threshold,
        final(config).thermal_critical_threshold == old(config).thermal_critical_threshold,
        final(config).thermal_monitor_interval == old(config).thermal_monitor_interval,
        final(config).alert_threshold == old(config).alert_threshold,
        final(config).alert_webhook_url == old(config).alert_webhook_url,
        final(config).alert_email == old(config).alert_email,
{
    match components {
        Some(list) => {
            select_components(config, list);
        },
        None => {},
    }
    match threads {
        Some(n) => {
            config.threads = #[verifier::truncate]
            (n as u32);
        },
        None => {},
    }
    match stress {
        Some(level) => {
            config.stress_level = level;
        },
        None => {},
    }
    match memory_size {
        Some(percent) => {
            config.memory_test_size_percent = percent;
        },
        None => {},
    }
    match storage_path {
        Some(path) => {
            choose_storage_path(&mut config.storage_test_paths, path);
        },
        None => {},
    }
    match storage_size {
        Some(size) => {
            config.storage_file_size = file_size_from_mib(size);
        },
        None => {},
    }
}


} // verus!
