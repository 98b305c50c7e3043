//! The server's configuration: settings read from the environment, the
//! compute device chosen by probing the devices in priority order, and the
//! GPU requirement.
use vstd::prelude::*;
use crate::text::{
    concat3, decimal, decimal_string, lowercase, lowercase_of, opt_chars, or_default, parse_u16,
    parse_unsigned, parse_usize, split_chars, split_on, str_equals, string_from_chars, trim,
    trim_str, value_or,
};

verus! {

/// What the server does when no GPU is usable.
#[derive(Clone, Copy, Debug, PartialEq, Eq, Structural)]
pub enum GpuMode {
    /// Fall back to the CPU.
    Auto,
    /// Refuse to start.
    Require,
}

/// Why the configuration cannot be used; the server refuses to start.
#[derive(Clone, Copy, Debug, PartialEq, Eq, Structural)]
pub enum ConfigError {
    /// `PORT` is not a `u16`.
    InvalidPort,
    /// `MAX_QUEUE_DEPTH` is not a `usize`.
    InvalidQueueDepth,
    /// `GPU_MODE=require`, and no GPU was found.
    GpuRequired,
}

/// The raw values of the server's environment variables (`None` where a
/// variable is unset).
pub struct ConfigSource {
    pub port: Option<String>,
    pub bind_addr: Option<String>,
    pub whisper_model: Option<String>,
    pub model_dir: Option<String>,
    pub max_queue_depth: Option<String>,
    pub gpu_mode: Option<String>,
    pub device_priority: Option<String>,
    pub admin_api_key: Option<String>,
}

/// The settings that follow from the environment alone.
pub struct Settings {
    pub port: u16,
    pub bind_addr: String,
    pub whisper_model: String,
    pub model_dir: String,
    pub max_queue_depth: usize,
    pub gpu_mode: GpuMode,
    pub device_priority: Vec<String>,
    pub admin_api_key: Option<String>,
}

/// The compute device in use.
pub struct Hardware {
    pub use_gpu: bool,
    pub active_device: String,
}

/// The server's whole configuration.
pub struct AppConfig {
    pub port: u16,
    pub bind_addr: String,
    pub whisper_model: String,
    pub model_dir: String,
    pub max_queue_depth: usize,
    pub gpu_mode: GpuMode,
    pub device_priority: Vec<String>,
    pub use_gpu: bool,
    pub active_device: String,
    pub admin_api_key: Option<String>,
}

/// A tool whose successful run shows that a GPU backend is usable.
#[derive(Clone, Copy, Debug, PartialEq, Eq, Structural)]
pub enum ProbeTool {
    NvidiaSmi,
    RocmSmi,
    Vulkaninfo,
}

/// What to do next while choosing the compute device.
pub enum ProbeAction {
    /// Run the tool and report whether it succeeded.
    Run(ProbeTool),
    /// The current entry names no device: report it as not usable.
    Skip,
    /// The choice is made.
    Finish(Hardware),
}

// ---------------------------------------------------------------------------
// Specifications
// ---------------------------------------------------------------------------

/// How a `DEVICE_PRIORITY` entry is treated.
pub enum DeviceKind {
    /// A GPU backend, usable when the tool runs; the device then carries
    /// the given name.
    Gpu(ProbeTool, Seq<char>),
    Cpu,
    Unknown,
}

pub open spec fn device_kind(dev: Seq<char>) -> DeviceKind {
    if dev == "cuda"@ || dev == "nvidia"@ {
        DeviceKind::Gpu(ProbeTool::NvidiaSmi, "cuda"@)
    } else if dev == "rocm"@ || dev == "hip"@ {
        DeviceKind::Gpu(ProbeTool::RocmSmi, "rocm"@)
    } else if dev == "vulkan"@ {
        DeviceKind::Gpu(ProbeTool::Vulkaninfo, "vulkan"@)
    } else if dev == "cpu"@ {
        DeviceKind::Cpu
    } else {
        DeviceKind::Unknown
    }
}

/// The choice that entry `dev` makes, given whether its probe succeeded:
/// `(use_gpu, device)`, or `None` to go on to the next entry. A `cpu` entry
/// settles on the CPU in `auto` mode; under `require` only a GPU will do,
/// so it is passed over like an unknown entry.
pub open spec fn entry_choice(dev: Seq<char>, usable: bool, mode: GpuMode) -> Option<
    (bool, Seq<char>),
> {
    match device_kind(dev) {
        DeviceKind::Gpu(_, name) => if usable {
            Some((true, name))
        } else {
            None
        },
        DeviceKind::Cpu => if mode == GpuMode::Require {
            None
        } else {
            Some((false, "cpu"@))
        },
        DeviceKind::Unknown => None,
    }
}

/// Entry `dev` is a GPU whose probe succeeded.
pub open spec fn gpu_usable(dev: Seq<char>, usable: bool) -> bool {
    device_kind(dev) is Gpu && usable
}

/// The first choice made among entries `i..` that have been answered.
pub open spec fn first_choice(
    priority: Seq<Seq<char>>,
    answers: Seq<bool>,
    mode: GpuMode,
    i: int,
) -> Option<
    (bool, Seq<char>),
>
    decreases answers.len() - i,
{
    if i < 0 || i >= answers.len() || i >= priority.len() {
        None
    } else {
        match entry_choice(priority[i], answers[i], mode) {
            Some(c) => Some(c),
            None => first_choice(priority, answers, mode, i + 1),
        }
    }
}

/// The device chosen once every entry has been answered: the first entry
/// that is a GPU whose probe succeeded or (in `auto` mode) the CPU; the CPU
/// if there is none.
pub open spec fn chosen_device(priority: Seq<Seq<char>>, answers: Seq<bool>, mode: GpuMode) -> (
    bool,
    Seq<char>,
) {
    match first_choice(priority, answers, mode, 0) {
        Some(c) => c,
        None => (false, "cpu"@),
    }
}

/// The view of a probe step: `Run`, `Skip`, or the chosen `(use_gpu,
/// device)`.
pub enum ProbeStep {
    Run(ProbeTool),
    Skip,
    Finish(bool, Seq<char>),
}

/// The next step, given the answers for the first `answers.len()` entries.
pub open spec fn probe_step(priority: Seq<Seq<char>>, answers: Seq<bool>, mode: GpuMode) -> ProbeStep {
    match first_choice(priority, answers, mode, 0) {
        Some(c) => ProbeStep::Finish(c.0, c.1),
        None => if answers.len() >= priority.len() {
            ProbeStep::Finish(false, "cpu"@)
        } else {
            match device_kind(priority[answers.len() as int]) {
                DeviceKind::Gpu(tool, _) => ProbeStep::Run(tool),
                DeviceKind::Cpu => if mode == GpuMode::Require {
                    ProbeStep::Skip
                } else {
                    ProbeStep::Finish(false, "cpu"@)
                },
                DeviceKind::Unknown => ProbeStep::Skip,
            }
        },
    }
}

pub open spec fn action_view(a: ProbeAction) -> ProbeStep {
    match a {
        ProbeAction::Run(t) => ProbeStep::Run(t),
        ProbeAction::Skip => ProbeStep::Skip,
        ProbeAction::Finish(h) => ProbeStep::Finish(h.use_gpu, h.active_device@),
    }
}

/// `DEVICE_PRIORITY` as a list: the comma-separated entries, trimmed and in
/// lower case, empty ones left out.
pub open spec fn device_entries(parts: Seq<Seq<char>>) -> Seq<Seq<char>>
    decreases parts.len(),
{
    if parts.len() == 0 {
        Seq::<Seq<char>>::empty()
    } else {
        let rest = device_entries(parts.drop_last());
        let e = lowercase_of(trim(parts.last()));
        if e.len() == 0 {
            rest
        } else {
            rest.push(e)
        }
    }
}

pub open spec fn device_priority_of(src: Option<Seq<char>>) -> Seq<Seq<char>> {
    device_entries(split_on(or_default(src, "cuda,vulkan,cpu"@), ','))
}

pub open spec fn gpu_mode_of(src: Option<Seq<char>>) -> GpuMode {
    if lowercase_of(or_default(src, "auto"@)) == "require"@ {
        GpuMode::Require
    } else {
        GpuMode::Auto
    }
}

pub open spec fn port_of(src: Option<Seq<char>>) -> Option<nat> {
    parse_unsigned(or_default(src, "3000"@), 0xffff)
}

pub open spec fn queue_depth_of(src: Option<Seq<char>>) -> Option<nat> {
    parse_unsigned(or_default(src, "10"@), usize::MAX as nat)
}

/// The admin key, when it is set and not empty.
pub open spec fn admin_key_of(src: Option<Seq<char>>) -> Option<Seq<char>> {
    match src {
        Some(k) => if k.len() > 0 {
            Some(k)
        } else {
            None
        },
        None => None,
    }
}

impl ConfigSource {
    /// The settings that `parse_settings` gives when both numbers read.
    pub open spec fn settings_hold(&self, s: Settings) -> bool {
        &&& Some(s.port as nat) == port_of(opt_chars(self.port))
        &&& s.bind_addr@ == or_default(opt_chars(self.bind_addr), "127.0.0.1"@)
        &&& s.whisper_model@ == or_default(opt_chars(self.whisper_model), "small.en"@)
        &&& s.model_dir@ == or_default(opt_chars(self.model_dir), "./models"@)
        &&& Some(s.max_queue_depth as nat) == queue_depth_of(opt_chars(self.max_queue_depth))
        &&& s.gpu_mode == gpu_mode_of(opt_chars(self.gpu_mode))
        &&& s.device_priority.deep_view() == device_priority_of(opt_chars(self.device_priority))
        &&& opt_chars(s.admin_api_key) == admin_key_of(opt_chars(self.admin_api_key))
    }
}

// ---------------------------------------------------------------------------
// Reading the settings
// ---------------------------------------------------------------------------

fn read_device_priority(src: &Option<String>) -> (r: Vec<String>)
    ensures
        r.deep_view() == device_priority_of(opt_chars(*src)),
{
    let text = value_or(src, "cuda,vulkan,cpu");
    let chars = crate::text::chars_of(text.as_str());
    let parts = split_chars(&chars, ',');
    let ghost pv = split_on(chars@, ',');
    let mut out: Vec<String> = Vec::new();
    let mut i: usize = 0;
    while i < parts.len()
        invariant
            parts@.len() == pv.len(),
            forall|k: int| 0 <= k < parts@.len() ==> (#[trigger] parts@[k])@ == pv[k],
            i <= parts.len(),
            out.deep_view() == device_entries(pv.subrange(0, i as int)),
        decreases parts.len() - i,
    {
        let piece = string_from_chars(parts[i].as_slice());
        let t = trim_str(piece.as_str());
        let e = lowercase(t.as_str());
        proof {
            let sub = pv.subrange(0, i + 1);
            assert(sub.drop_last() =~= pv.subrange(0, i as int));
            assert(sub.last() == pv[i as int]);
        }
        if !e.as_str().is_empty() {
            let ghost before = out.deep_view();
            out.push(e);
            assert(out.deep_view() =~= before.push(e@));
        }
        i = i + 1;
    }
    assert(pv.subrange(0, parts@.len() as int) =~= pv);
    out
}

fn read_gpu_mode(src: &Option<String>) -> (m: GpuMode)
    ensures
        m == gpu_mode_of(opt_chars(*src)),
{
    let text = value_or(src, "auto");
    let lower = lowercase(text.as_str());
    if str_equals(lower.as_str(), "require") {
        GpuMode::Require
    } else {
        GpuMode::Auto
    }
}

fn read_admin_key(src: &Option<String>) -> (k: Option<String>)
    ensures
        opt_chars(k) == admin_key_of(opt_chars(*src)),
{
    match src {
        Some(k) => {
            if !k.as_str().is_empty() {
                Some(k.clone())
            } else {
                None
            }
        },
        None => None,
    }
}

/// Reads the settings from the environment's values, with the documented
/// defaults: port 3000, address 127.0.0.1, model `small.en`, model
/// directory `./models`, queue depth 10, GPU mode `auto`, device priority
/// `cuda,vulkan,cpu`. A port that is not a `u16` or a queue depth that is not
/// a `usize` is an error, the port checked first.
pub fn parse_settings(src: &ConfigSource) -> (r: Result<Settings, ConfigError>)
    ensures
        match r {
            Ok(s) => src.settings_hold(s),
            Err(e) => (e == ConfigError::InvalidPort && port_of(opt_chars(src.port)) is None) || (e
                == ConfigError::InvalidQueueDepth && port_of(opt_chars(src.port)) is Some
                && queue_depth_of(opt_chars(src.max_queue_depth)) is None),
        },
        r is Ok <==> (port_of(opt_chars(src.port)) is Some && queue_depth_of(
            opt_chars(src.max_queue_depth),
        ) is Some),
        r matches Ok(s) ==> (src.bind_addr matches Some(a) ==> s.bind_addr@ == a@),
        r matches Ok(s) ==> (src.bind_addr is None ==> s.bind_addr@ == "127.0.0.1"@),
        r matches Ok(s) ==> (src.whisper_model matches Some(m) ==> s.whisper_model@ == m@),
        r matches Ok(s) ==> (src.whisper_model is None ==> s.whisper_model@ == "small.en"@),
        r matches Ok(s) ==> (src.model_dir matches Some(d) ==> s.model_dir@ == d@),
        r matches Ok(s) ==> (src.model_dir is None ==> s.model_dir@ == "./models"@),
{
    let port_text = value_or(&src.port, "3000");
    let port = match parse_u16(port_text.as_str()) {
        Some(p) => p,
        None => {
            return Err(ConfigError::InvalidPort);
        },
    };
    let bind_addr = value_or(&src.bind_addr, "127.0.0.1");
    let whisper_model = value_or(&src.whisper_model, "small.en");
    let model_dir = value_or(&src.model_dir, "./models");
    let depth_text = value_or(&src.max_queue_depth, "10");
    let max_queue_depth = match parse_usize(depth_text.as_str()) {
        Some(d) => d,
        None => {
            return Err(ConfigError::InvalidQueueDepth);
        },
    };
    let gpu_mode = read_gpu_mode(&src.gpu_mode);
    let device_priority = read_device_priority(&src.device_priority);
    let admin_api_key = read_admin_key(&src.admin_api_key);
    Ok(
        Settings {
            port,
            bind_addr,
            whisper_model,
            model_dir,
            max_queue_depth,
            gpu_mode,
            device_priority,
            admin_api_key,
        },
    )
}

/// The settings take each variable's value when it is set, and the
/// documented default when it is not: `BIND_ADDR`, `WHISPER_MODEL` and
/// `MODEL_DIR` are used as given, `ADMIN_API_KEY` when it is not empty.
pub proof fn law_settings_take_set_values(src: ConfigSource, s: Settings)
    requires
        src.settings_hold(s),
    ensures
        src.bind_addr matches Some(a) ==> s.bind_addr@ == a@,
        src.bind_addr is None ==> s.bind_addr@ == "127.0.0.1"@,
        src.whisper_model matches Some(m) ==> s.whisper_model@ == m@,
        src.whisper_model is None ==> s.whisper_model@ == "small.en"@,
        src.model_dir matches Some(d) ==> s.model_dir@ == d@,
        src.model_dir is None ==> s.model_dir@ == "./models"@,
        src.admin_api_key matches Some(k) ==> (k@.len() > 0 ==> opt_chars(s.admin_api_key) == Some(
            k@,
        )),
        src.admin_api_key matches Some(k) ==> (k@.len() == 0 ==> s.admin_api_key is None),
        src.admin_api_key is None ==> s.admin_api_key is None,
{
}

// ---------------------------------------------------------------------------
// Choosing the compute device
// ---------------------------------------------------------------------------

fn kind_of(dev: &str) -> (r: (Option<ProbeTool>, bool))
    ensures
        match device_kind(dev@) {
            DeviceKind::Gpu(t, _) => r == (Some(t), false),
            DeviceKind::Cpu => r == (None::<ProbeTool>, true),
            DeviceKind::Unknown => r == (None::<ProbeTool>, false),
        },
{
    if str_equals(dev, "cuda") || str_equals(dev, "nvidia") {
        (Some(ProbeTool::NvidiaSmi), false)
    } else if str_equals(dev, "rocm") || str_equals(dev, "hip") {
        (Some(ProbeTool::RocmSmi), false)
    } else if str_equals(dev, "vulkan") {
        (Some(ProbeTool::Vulkaninfo), false)
    } else if str_equals(dev, "cpu") {
        (None, true)
    } else {
        (None, false)
    }
}

fn cpu_hardware() -> (h: Hardware)
    ensures
        !h.use_gpu,
        h.active_device@ == "cpu"@,
{
    Hardware { use_gpu: false, active_device: "cpu".to_owned() }
}

fn choice_of(dev: &str, usable: bool, mode: GpuMode) -> (r: Option<Hardware>)
    ensures
        match entry_choice(dev@, usable, mode) {
            Some(c) => r matches Some(h) && h.use_gpu == c.0 && h.active_device@ == c.1,
            None => r is None,
        },
{
    if str_equals(dev, "cuda") || str_equals(dev, "nvidia") {
        if usable {
            Some(Hardware { use_gpu: true, active_device: "cuda".to_owned() })
        } else {
            None
        }
    } else if str_equals(dev, "rocm") || str_equals(dev, "hip") {
        if usable {
            Some(Hardware { use_gpu: true, active_device: "rocm".to_owned() })
        } else {
            None
        }
    } else if str_equals(dev, "vulkan") {
        if usable {
            Some(Hardware { use_gpu: true, active_device: "vulkan".to_owned() })
        } else {
            None
        }
    } else if str_equals(dev, "cpu") && mode == GpuMode::Auto {
        Some(cpu_hardware())
    } else {
        None
    }
}

/// The next step in choosing the compute device, given whether the tools of
/// the first `answers.len()` entries of `priority` ran (`false` for entries
/// that name no device, and for a passed-over `cpu` entry). The caller runs
/// the tool it is told to, or reports a skipped entry as not usable, and asks
/// again, until the choice is made; so tools are run in priority order and
/// none after the choice.
pub fn next_probe(priority: &Vec<String>, answers: &Vec<bool>, mode: GpuMode) -> (a: ProbeAction)
    ensures
        action_view(a) == probe_step(priority.deep_view(), answers@, mode),
{
    let ghost pv = priority.deep_view();
    let n = if answers.len() < priority.len() {
        answers.len()
    } else {
        priority.len()
    };
    let mut i: usize = 0;
    while i < n
        invariant
            pv == priority.deep_view(),
            pv.len() == priority.len(),
            n <= answers.len(),
            n <= priority.len(),
            i <= n,
            first_choice(pv, answers@, mode, 0) == first_choice(pv, answers@, mode, i as int),
        decreases n - i,
    {
        assert(pv[i as int] == priority@[i as int]@);
        match choice_of(priority[i].as_str(), answers[i], mode) {
            Some(h) => {
                return ProbeAction::Finish(h);
            },
            None => {},
        }
        i = i + 1;
    }
    assert(first_choice(pv, answers@, mode, i as int) is None);
    if answers.len() >= priority.len() {
        return ProbeAction::Finish(cpu_hardware());
    }
    let k = answers.len();
    assert(pv[k as int] == priority@[k as int]@);
    let (tool, is_cpu) = kind_of(priority[k].as_str());
    match tool {
        Some(t) => ProbeAction::Run(t),
        None => if is_cpu && mode == GpuMode::Auto {
            ProbeAction::Finish(cpu_hardware())
        } else {
            ProbeAction::Skip
        },
    }
}

/// The device chosen once every entry has been answered.
pub fn choose_device(priority: &Vec<String>, answers: &Vec<bool>, mode: GpuMode) -> (h: Hardware)
    requires
        answers.len() == priority.len(),
    ensures
        (h.use_gpu, h.active_device@) == chosen_device(priority.deep_view(), answers@, mode),
{
    match next_probe(priority, answers, mode) {
        ProbeAction::Finish(h) => h,
        ProbeAction::Run(_) => {
            proof {
                assert(false);
            }
            cpu_hardware()
        },
        ProbeAction::Skip => {
            proof {
                assert(false);
            }
            cpu_hardware()
        },
    }
}

// ---------------------------------------------------------------------------
// The whole configuration
// ---------------------------------------------------------------------------

impl AppConfig {
    /// Puts the settings and the chosen device together; refuses when the
    /// GPU is required and none is in use.
    pub fn load(settings: Settings, hardware: Hardware) -> (r: Result<AppConfig, ConfigError>)
        ensures
            r is Err <==> (!hardware.use_gpu && settings.gpu_mode == GpuMode::Require),
            r matches Err(e) ==> e == ConfigError::GpuRequired,
            r matches Ok(c) ==> {
                &&& c.port == settings.port
                &&& c.bind_addr == settings.bind_addr
                &&& c.whisper_model == settings.whisper_model
                &&& c.model_dir == settings.model_dir
                &&& c.max_queue_depth == settings.max_queue_depth
                &&& c.gpu_mode == settings.gpu_mode
                &&& c.device_priority == settings.device_priority
                &&& c.admin_api_key == settings.admin_api_key
                &&& c.use_gpu == hardware.use_gpu
                &&& c.active_device == hardware.active_device
            },
    {
        if !hardware.use_gpu && settings.gpu_mode == GpuMode::Require {
            return Err(ConfigError::GpuRequired);
        }
        Ok(
            AppConfig {
                port: settings.port,
                bind_addr: settings.bind_addr,
                whisper_model: settings.whisper_model,
                model_dir: settings.model_dir,
                max_queue_depth: settings.max_queue_depth,
                gpu_mode: settings.gpu_mode,
                device_priority: settings.device_priority,
                use_gpu: hardware.use_gpu,
                active_device: hardware.active_device,
                admin_api_key: settings.admin_api_key,
            },
        )
    }

    /// The address that the server listens on: `bind_addr:port`.
    pub fn listen_address(&self) -> (a: String)
        ensures
            a@ == self.bind_addr@ + ":"@ + decimal(self.port as nat),
    {
        let port = decimal_string(self.port as u128);
        concat3(self.bind_addr.as_str(), ":", port.as_str())
    }
}

// ---------------------------------------------------------------------------
// Laws
// ---------------------------------------------------------------------------

/// Probing follows the priority order: once every entry is answered, the
/// device chosen is the first entry that settles the choice, and the CPU when
/// none does; a GPU is in use exactly when the chosen device is not the CPU.
pub proof fn law_first_usable_device_wins(
    priority: Seq<Seq<char>>,
    answers: Seq<bool>,
    mode: GpuMode,
    i: int,
)
    requires
        answers.len() == priority.len(),
        0 <= i < priority.len(),
        entry_choice(priority[i], answers[i], mode) is Some,
        forall|j: int| 0 <= j < i ==> entry_choice(priority[j], answers[j], mode) is None,
    ensures
        chosen_device(priority, answers, mode) == entry_choice(priority[i], answers[i], mode)->0,
        chosen_device(priority, answers, mode).0 == (chosen_device(priority, answers, mode).1
            != "cpu"@),
{
    lemma_gpu_names_are_not_cpu();
    lemma_first_choice_from(priority, answers, mode, 0, i);
}

proof fn lemma_gpu_names_are_not_cpu()
    ensures
        "cuda"@ != "cpu"@,
        "rocm"@ != "cpu"@,
        "vulkan"@ != "cpu"@,
{
    reveal_strlit("cpu");
    reveal_strlit("cuda");
    reveal_strlit("rocm");
    reveal_strlit("vulkan");
    assert("cuda"@[1] != "cpu"@[1]);
    assert("rocm"@[0] != "cpu"@[0]);
    assert("vulkan"@.len() != "cpu"@.len());
}

proof fn lemma_first_choice_from(
    priority: Seq<Seq<char>>,
    answers: Seq<bool>,
    mode: GpuMode,
    k: int,
    i: int,
)
    requires
        answers.len() == priority.len(),
        0 <= k <= i < priority.len(),
        entry_choice(priority[i], answers[i], mode) is Some,
        forall|j: int| k <= j < i ==> entry_choice(priority[j], answers[j], mode) is None,
    ensures
        first_choice(priority, answers, mode, k) == entry_choice(priority[i], answers[i], mode),
    decreases i - k,
{
    if k < i {
        lemma_first_choice_from(priority, answers, mode, k + 1, i);
    }
}

/// With no entry settling the choice, the server runs on the CPU.
pub proof fn law_no_usable_entry_means_cpu(priority: Seq<Seq<char>>, answers: Seq<bool>, mode: GpuMode)
    requires
        answers.len() == priority.len(),
        forall|j: int|
            0 <= j < priority.len() ==> entry_choice(priority[j], answers[j], mode) is None,
    ensures
        chosen_device(priority, answers, mode) == (false, "cpu"@),
{
    lemma_no_choice_from(priority, answers, mode, 0);
}

proof fn lemma_no_choice_from(priority: Seq<Seq<char>>, answers: Seq<bool>, mode: GpuMode, k: int)
    requires
        answers.len() == priority.len(),
        0 <= k,
        forall|j: int|
            k <= j < priority.len() ==> entry_choice(priority[j], answers[j], mode) is None,
    ensures
        first_choice(priority, answers, mode, k) is None,
    decreases priority.len() - k,
{
    if k < priority.len() {
        lemma_no_choice_from(priority, answers, mode, k + 1);
    }
}

/// Under `GPU_MODE=require` a GPU is in use exactly when some GPU entry of
/// the priority list answered its probe, whatever `cpu` entries stand before
/// it; so the server refuses to start (`AppConfig::load` fails) exactly when
/// no GPU entry is usable.
pub proof fn law_require_uses_any_usable_gpu(priority: Seq<Seq<char>>, answers: Seq<bool>)
    requires
        answers.len() == priority.len(),
    ensures
        chosen_device(priority, answers, GpuMode::Require).0 <==> exists|i: int|
            0 <= i < priority.len() && gpu_usable(priority[i], answers[i]),
{
    let mode = GpuMode::Require;
    assert forall|j: int| 0 <= j < priority.len() implies (entry_choice(
        priority[j],
        answers[j],
        mode,
    ) is Some <==> gpu_usable(priority[j], answers[j])) by {}
    if exists|i: int| 0 <= i < priority.len() && gpu_usable(priority[i], answers[i]) {
        let w = choose|i: int| 0 <= i < priority.len() && gpu_usable(priority[i], answers[i]);
        lemma_first_settled(priority, answers, mode, w);
    } else {
        law_no_usable_entry_means_cpu(priority, answers, mode);
    }
}

/// When entry `w` settles the choice under `require`, some first entry does,
/// and it chooses a GPU.
proof fn lemma_first_settled(priority: Seq<Seq<char>>, answers: Seq<bool>, mode: GpuMode, w: int)
    requires
        mode == GpuMode::Require,
        answers.len() == priority.len(),
        0 <= w < priority.len(),
        entry_choice(priority[w], answers[w], mode) is Some,
    ensures
        chosen_device(priority, answers, mode).0,
    decreases w,
{
    if exists|j: int| 0 <= j < w && entry_choice(priority[j], answers[j], mode) is Some {
        let j = choose|j: int| 0 <= j < w && entry_choice(priority[j], answers[j], mode) is Some;
        lemma_first_settled(priority, answers, mode, j);
    } else {
        lemma_first_choice_from(priority, answers, mode, 0, w);
    }
}

} // verus!
