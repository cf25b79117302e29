use vstd::prelude::*;

use std::path::PathBuf;

use crate::predictor::ClassMap;

verus! {

#[verifier::external_type_specification]
#[verifier::external_body]
pub struct ExPathBuf(std::path::PathBuf);

/// Relies on `<PathBuf as Clone>::clone`: a copy of the same path.
pub assume_specification[ <PathBuf as Clone>::clone ](p: &PathBuf) -> (r: PathBuf)
    ensures
        r == *p,
;

/// What `PathBuf::from` makes of a text.
pub uninterp spec fn path_of(s: Seq<char>) -> PathBuf;

/// Relies on `PathBuf::from(&str)`: the path depends on the text alone.
#[verifier::external_body]
fn path_from(s: &str) -> (r: PathBuf)
    ensures
        r == path_of(s@),
{
    PathBuf::from(s)
}

/// What `Path::with_extension` makes of a path and an extension.
pub uninterp spec fn path_with_extension(p: PathBuf, ext: Seq<char>) -> PathBuf;

/// Whether a text holds no path separator, as an extension must.
pub open spec fn no_separator(s: Seq<char>) -> bool {
    forall|i: int| 0 <= i < s.len() ==> #[trigger] s[i] != '/' && s[i] != '\\'
}

/// Relies on `Path::with_extension`: `p` with its extension replaced by
/// `ext`; the result depends on the arguments alone. It panics on an
/// extension that holds a path separator, which `requires` leaves out.
#[verifier::external_body]
fn with_extension(p: &PathBuf, ext: &str) -> (r: PathBuf)
    requires
        no_separator(ext@),
    ensures
        r == path_with_extension(*p, ext@),
{
    p.with_extension(ext)
}

/// Width of the full frame that the default crop region covers.
pub const FULL_FRAME_WIDTH: u32 = 1920;

/// Height of the full frame that the default crop region covers.
pub const FULL_FRAME_HEIGHT: u32 = 1080;

/// Everything the program is set up with.
#[derive(Clone, Debug)]
pub struct Config {
    pub obs: ObsConfig,
    pub model: ModelConfig,
    pub preprocessing: PreprocessingConfig,
    pub state: StateConfig,
    pub server: ServerConfig,
    pub detection: DetectionConfig,
    pub screenshot: ScreenshotConfig,
    pub debug: DebugConfig,
}

/// How to reach the OBS WebSocket and which source to capture.
#[derive(Clone, Debug)]
pub struct ObsConfig {
    pub host: String,
    pub port: u16,
    pub password: Option<String>,
    pub source_name: String,
}

/// Where the classifier's model and labels are, and how its classes map to
/// outcomes.
#[derive(Clone, Debug)]
pub struct ModelConfig {
    pub model_path: PathBuf,
    pub label_map_path: PathBuf,
    pub class_map: ClassMap,
}

/// The region `[x, y, width, height]` cut out of each frame, and the size
/// the classifier takes.
#[derive(Clone, Debug)]
pub struct PreprocessingConfig {
    pub crop_rect: [u32; 4],
    pub resize_width: u32,
    pub resize_height: u32,
}

/// The debouncer's settings.
#[derive(Clone, Debug)]
pub struct StateConfig {
    pub cooldown_seconds: u64,
    pub required_consecutive: usize,
}

/// Where the HTTP server listens.
#[derive(Clone, Debug)]
pub struct ServerConfig {
    pub host: String,
    pub port: u16,
}

/// The sampling cadence.
#[derive(Clone, Debug)]
pub struct DetectionConfig {
    pub interval_ms: u64,
}

/// Whether and where the first frame of a run is saved.
#[derive(Clone, Debug)]
pub struct ScreenshotConfig {
    pub enabled: bool,
    pub save_dir: PathBuf,
}

/// Whether and where intermediate artefacts are saved.
#[derive(Clone, Debug)]
pub struct DebugConfig {
    pub enabled: bool,
    pub save_dir: PathBuf,
    pub save_cropped: bool,
    pub save_preprocessed: bool,
    pub save_results: bool,
}

/// The OBS WebSocket host when none is set.
pub fn default_obs_host() -> (r: String)
    ensures
        r@ == "localhost"@,
{
    String::from_str("localhost")
}

/// The OBS WebSocket port when none is set.
pub fn default_obs_port() -> (r: u16)
    ensures
        r == 4455,
{
    4455
}

/// Seconds after a counted event during which observations are ignored.
pub fn default_cooldown_seconds() -> (r: u64)
    ensures
        r == 10,
{
    10
}

/// How many counted observations in a row make one event.
pub fn default_required_consecutive() -> (r: usize)
    ensures
        r == 3,
{
    3
}

/// The address the HTTP server binds when none is set.
pub fn default_server_host() -> (r: String)
    ensures
        r@ == "127.0.0.1"@,
{
    String::from_str("127.0.0.1")
}

/// The port the HTTP server binds when none is set.
pub fn default_server_port() -> (r: u16)
    ensures
        r == 3000,
{
    3000
}

/// Milliseconds between the starts of two ticks.
pub fn default_detection_interval_ms() -> (r: u64)
    ensures
        r == 1000,
{
    1000
}

/// The width the classifier takes.
pub fn default_resize_width() -> (r: u32)
    ensures
        r == 512,
{
    512
}

/// The height the classifier takes.
pub fn default_resize_height() -> (r: u32)
    ensures
        r == 283,
{
    283
}

/// Screenshots are off unless asked for.
pub fn default_screenshot_enabled() -> (r: bool)
    ensures
        r == false,
{
    false
}

/// Where screenshots go.
pub fn default_screenshot_save_dir() -> (r: PathBuf)
    ensures
        r == path_of("screenshots"@),
{
    path_from("screenshots")
}

/// Debug artefacts are off unless asked for.
pub fn default_debug_enabled() -> (r: bool)
    ensures
        r == false,
{
    false
}

/// Where debug artefacts go.
pub fn default_debug_save_dir() -> (r: PathBuf)
    ensures
        r == path_of("debug"@),
{
    path_from("debug")
}

/// With debugging on, cut frames are saved.
pub fn default_debug_save_cropped() -> (r: bool)
    ensures
        r == true,
{
    true
}

/// With debugging on, classifier inputs are not saved.
pub fn default_debug_save_preprocessed() -> (r: bool)
    ensures
        r == false,
{
    false
}

/// With debugging on, classification results are saved.
pub fn default_debug_save_results() -> (r: bool)
    ensures
        r == true,
{
    true
}

/// No configured class mapping: every class falls back to its name.
pub fn default_class_map() -> (r: ClassMap)
    ensures
        r.entries() == Seq::<(Seq<char>, Seq<char>)>::empty(),
{
    ClassMap::new()
}

impl Config {
    /// The settings for a source and a model, with every other setting at
    /// its default and the crop region covering the full frame. The label
    /// map sits beside the model, with the extension `label_map.json`.
    pub fn default_with_required(source_name: String, model_path: PathBuf) -> (r: Self)
        ensures
            r.obs.host@ == "localhost"@,
            r.obs.port == 4455,
            r.obs.password is None,
            r.obs.source_name@ == source_name@,
            r.model.model_path == model_path,
            r.model.label_map_path == path_with_extension(model_path, "label_map.json"@),
            r.model.class_map.entries() == Seq::<(Seq<char>, Seq<char>)>::empty(),
            r.preprocessing.crop_rect@ == seq![0u32, 0u32, FULL_FRAME_WIDTH, FULL_FRAME_HEIGHT],
            r.preprocessing.resize_width == 512,
            r.preprocessing.resize_height == 283,
            r.state.cooldown_seconds == 10,
            r.state.required_consecutive == 3,
            r.server.host@ == "127.0.0.1"@,
            r.server.port == 3000,
            r.detection.interval_ms == 1000,
            r.screenshot.enabled == false,
            r.screenshot.save_dir == path_of("screenshots"@),
            r.debug.enabled == false,
            r.debug.save_dir == path_of("debug"@),
            r.debug.save_cropped == true,
            r.debug.save_preprocessed == false,
            r.debug.save_results == true,
    {
        proof {
            reveal_strlit("label_map.json");
        }
        let label_map_path = with_extension(&model_path, "label_map.json");
        let r = Config {
            obs: ObsConfig {
                host: default_obs_host(),
                port: default_obs_port(),
                password: None,
                source_name,
            },
            model: ModelConfig { model_path, label_map_path, class_map: default_class_map() },
            preprocessing: PreprocessingConfig {
                crop_rect: [0, 0, FULL_FRAME_WIDTH, FULL_FRAME_HEIGHT],
                resize_width: default_resize_width(),
                resize_height: default_resize_height(),
            },
            state: StateConfig {
                cooldown_seconds: default_cooldown_seconds(),
                required_consecutive: default_required_consecutive(),
            },
            server: ServerConfig { host: default_server_host(), port: default_server_port() },
            detection: DetectionConfig { interval_ms: default_detection_interval_ms() },
            screenshot: ScreenshotConfig {
                enabled: default_screenshot_enabled(),
                save_dir: default_screenshot_save_dir(),
            },
            debug: DebugConfig {
                enabled: default_debug_enabled(),
                save_dir: default_debug_save_dir(),
                save_cropped: default_debug_save_cropped(),
                save_preprocessed: default_debug_save_preprocessed(),
                save_results: default_debug_save_results(),
            },
        };
        assert(r.preprocessing.crop_rect@ =~= seq![0u32, 0u32, FULL_FRAME_WIDTH, FULL_FRAME_HEIGHT]);
        r
    }

    /// The crop region as `(x, y, width, height)`.
    pub fn crop_rect_tuple(&self) -> (r: (u32, u32, u32, u32))
        ensures
            r == (
                self.preprocessing.crop_rect@[0],
                self.preprocessing.crop_rect@[1],
                self.preprocessing.crop_rect@[2],
                self.preprocessing.crop_rect@[3],
            ),
    {
        let rect = &self.preprocessing.crop_rect;
        (rect[0], rect[1], rect[2], rect[3])
    }
}

/// Why the settings could not be read or written.
#[derive(Clone, Debug, PartialEq, Eq)]
pub enum ConfigError {
    /// The file at the path could not be read, for the reason given.
    FileRead(String, String),
    /// The file at the path is no valid settings file, for the reason given.
    Parse(String, String),
    /// The settings could not be written out, for the reason given.
    Serialize(String),
}

/// The text that describes an error of each kind.
pub open spec fn config_error_text(e: ConfigError) -> Seq<char> {
    match e {
        ConfigError::FileRead(path, err) => "Failed to read config file '"@ + path@ + "': "@ + err@,
        ConfigError::Parse(path, err) => "Failed to parse config file '"@ + path@ + "': "@ + err@,
        ConfigError::Serialize(err) => "Failed to serialize config: "@ + err@,
    }
}

impl ConfigError {
    /// A sentence for logs and for people.
    pub fn message(&self) -> (r: String)
        ensures
            r@ == config_error_text(*self),
    {
        match self {
            ConfigError::FileRead(path, err) => String::from_str(
                "Failed to read config file '",
            ).concat(path.as_str()).concat("': ").concat(err.as_str()),
            ConfigError::Parse(path, err) => String::from_str("Failed to parse config file '").concat(
                path.as_str(),
            ).concat("': ").concat(err.as_str()),
            ConfigError::Serialize(err) => String::from_str("Failed to serialize config: ").concat(
                err.as_str(),
            ),
        }
    }
}

} // verus!
