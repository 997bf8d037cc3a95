//! Display preferences of the overlay.

use vstd::prelude::*;
use vstd::string::StringExecFns;

verus! {

/// Corner of the screen in which the overlay is drawn.
#[derive(Debug, Clone, Copy, PartialEq, Eq, Structural)]
pub enum OverlayPosition {
    TopRight,
    TopLeft,
}

impl Default for OverlayPosition {
    fn default() -> (position: Self)
        ensures
            position == OverlayPosition::TopRight,
    {
        OverlayPosition::TopRight
    }
}

/// Colour of the frame-rate text.
#[derive(Debug, Clone, Copy, PartialEq, Eq, Structural)]
pub enum FpsColor {
    White,
    /// Bright green, `#39FF14`.
    Green,
}

impl Default for FpsColor {
    fn default() -> (color: Self)
        ensures
            color == FpsColor::White,
    {
        FpsColor::White
    }
}

impl FpsColor {
    /// Red, green and blue components of the colour.
    pub open spec fn rgb(self) -> (u8, u8, u8) {
        match self {
            FpsColor::White => (255u8, 255u8, 255u8),
            FpsColor::Green => (57u8, 255u8, 20u8),
        }
    }

    /// Returns the red, green and blue components of the colour.
    pub fn to_rgb(&self) -> (rgb: (u8, u8, u8))
        ensures
            rgb == self.rgb(),
    {
        match self {
            FpsColor::White => (255, 255, 255),
            FpsColor::Green => (57, 255, 20),
        }
    }
}

/// Size of the overlay.
#[derive(Debug, Clone, Copy, PartialEq, Eq, Structural)]
pub enum OverlaySize {
    Small,
    Medium,
    Large,
}

impl Default for OverlaySize {
    fn default() -> (size: Self)
        ensures
            size == OverlaySize::Medium,
    {
        OverlaySize::Medium
    }
}

impl OverlaySize {
    /// Width and height of the overlay and the heights of its large and
    /// its small font, in pixels.
    pub open spec fn metrics(self) -> (i32, i32, i32, i32) {
        match self {
            OverlaySize::Small => (75i32, 42i32, 20i32, 10i32),
            OverlaySize::Medium => (95i32, 52i32, 26i32, 12i32),
            OverlaySize::Large => (120i32, 65i32, 32i32, 14i32),
        }
    }

    /// Returns the width and height of the overlay and the heights of its
    /// large and its small font, in pixels.
    pub fn dimensions(&self) -> (dims: (i32, i32, i32, i32))
        ensures
            dims == self.metrics(),
    {
        match self {
            OverlaySize::Small => (75, 42, 20, 10),
            OverlaySize::Medium => (95, 52, 26, 12),
            OverlaySize::Large => (120, 65, 32, 14),
        }
    }
}

/// Least opacity of the overlay that can be chosen, in percent.
pub const MIN_OPACITY: u8 = 40;

/// Greatest opacity of the overlay, in percent.
pub const MAX_OPACITY: u8 = 100;

/// The preferences of the application.
#[derive(Debug, Clone, Copy, PartialEq, Eq, Structural)]
pub struct Settings {
    /// Corner in which the overlay is drawn.
    pub position: OverlayPosition,
    /// Colour of the frame-rate text.
    pub fps_color: FpsColor,
    /// Size of the overlay.
    pub size: OverlaySize,
    /// Whether the application starts when the user logs in.
    pub start_with_windows: bool,
    /// Whether the rate of the slowest hundredth is shown.
    pub show_1_percent_low: bool,
    /// Whether the processor load is shown.
    pub show_cpu_usage: bool,
    /// Whether the graphics load is shown.
    pub show_gpu_usage: bool,
    /// Opacity of the overlay, in percent.
    pub overlay_opacity: u8,
}

impl Settings {
    /// The preferences of a fresh installation.
    pub open spec fn initial() -> Settings {
        Settings {
            position: OverlayPosition::TopRight,
            fps_color: FpsColor::White,
            size: OverlaySize::Medium,
            start_with_windows: false,
            show_1_percent_low: true,
            show_cpu_usage: false,
            show_gpu_usage: false,
            overlay_opacity: MAX_OPACITY,
        }
    }
}

impl Default for Settings {
    fn default() -> (settings: Self)
        ensures
            settings == Settings::initial(),
    {
        Settings {
            position: OverlayPosition::TopRight,
            fps_color: FpsColor::White,
            size: OverlaySize::Medium,
            start_with_windows: false,
            show_1_percent_low: true,
            show_cpu_usage: false,
            show_gpu_usage: false,
            overlay_opacity: MAX_OPACITY,
        }
    }
}

/// What the controls of the settings window show when the user saves.
#[derive(Debug, Clone, Copy, PartialEq, Eq, Structural)]
pub struct SettingsForm {
    /// The "left" button of the position group is checked.
    pub position_left: bool,
    /// The "green" button of the colour group is checked.
    pub color_green: bool,
    /// The "small" button of the size group is checked.
    pub size_small: bool,
    /// The "large" button of the size group is checked.
    pub size_large: bool,
    pub show_1_percent_low: bool,
    pub show_cpu_usage: bool,
    pub show_gpu_usage: bool,
    pub start_with_windows: bool,
    /// Position of the opacity slider.
    pub opacity: u8,
}

impl SettingsForm {
    /// The preferences that the form stands for. Each group of buttons
    /// falls back to its first choice: right, white, and medium where
    /// neither small nor large is checked.
    pub open spec fn chosen(self) -> Settings {
        Settings {
            position: if self.position_left {
                OverlayPosition::TopLeft
            } else {
                OverlayPosition::TopRight
            },
            fps_color: if self.color_green {
                FpsColor::Green
            } else {
                FpsColor::White
            },
            size: if self.size_small {
                OverlaySize::Small
            } else if self.size_large {
                OverlaySize::Large
            } else {
                OverlaySize::Medium
            },
            start_with_windows: self.start_with_windows,
            show_1_percent_low: self.show_1_percent_low,
            show_cpu_usage: self.show_cpu_usage,
            show_gpu_usage: self.show_gpu_usage,
            overlay_opacity: self.opacity,
        }
    }

    /// Returns the preferences that the form stands for.
    pub fn to_settings(&self) -> (settings: Settings)
        ensures
            settings == self.chosen(),
    {
        Settings {
            position: if self.position_left {
                OverlayPosition::TopLeft
            } else {
                OverlayPosition::TopRight
            },
            fps_color: if self.color_green {
                FpsColor::Green
            } else {
                FpsColor::White
            },
            size: if self.size_small {
                OverlaySize::Small
            } else if self.size_large {
                OverlaySize::Large
            } else {
                OverlaySize::Medium
            },
            start_with_windows: self.start_with_windows,
            show_1_percent_low: self.show_1_percent_low,
            show_cpu_usage: self.show_cpu_usage,
            show_gpu_usage: self.show_gpu_usage,
            overlay_opacity: self.opacity,
        }
    }
}

/// Registry key that lists what starts when the user logs in.
pub const RUN_KEY: &'static str = "HKCU\\Software\\Microsoft\\Windows\\CurrentVersion\\Run";

/// Name of the application's value under `RUN_KEY`.
pub const RUN_VALUE: &'static str = "EasyFPS";

/// The arguments of the registry tool that add the application to
/// `RUN_KEY`, with the path `exe_path` in double quotes as its command.
pub open spec fn startup_add_arguments(exe_path: Seq<char>) -> Seq<Seq<char>> {
    seq![
        "add"@,
        RUN_KEY@,
        "/v"@,
        RUN_VALUE@,
        "/t"@,
        "REG_SZ"@,
        "/d"@,
        "\""@ + exe_path + "\""@,
        "/f"@,
    ]
}

/// The arguments of the registry tool that take the application out of
/// `RUN_KEY`.
pub open spec fn startup_delete_arguments() -> Seq<Seq<char>> {
    seq!["delete"@, RUN_KEY@, "/v"@, RUN_VALUE@, "/f"@]
}

/// The texts of `arguments`, in order.
pub open spec fn texts(arguments: Seq<String>) -> Seq<Seq<char>> {
    arguments.map_values(|argument: String| argument@)
}

impl Settings {
    /// Returns the arguments with which the registry tool brings the start
    /// at login in line with these settings: it adds the application, with
    /// `exe_path` as its command, or takes it out.
    pub fn startup_registry_arguments(&self, exe_path: &str) -> (arguments: Vec<String>)
        ensures
            texts(arguments@) == if self.start_with_windows {
                startup_add_arguments(exe_path@)
            } else {
                startup_delete_arguments()
            },
    {
        let mut arguments: Vec<String> = Vec::new();
        if self.start_with_windows {
            let mut command = "\"".to_owned();
            command.append(exe_path);
            command.append("\"");
            arguments.push("add".to_owned());
            arguments.push(RUN_KEY.to_owned());
            arguments.push("/v".to_owned());
            arguments.push(RUN_VALUE.to_owned());
            arguments.push("/t".to_owned());
            arguments.push("REG_SZ".to_owned());
            arguments.push("/d".to_owned());
            arguments.push(command);
            arguments.push("/f".to_owned());
            assert(texts(arguments@) =~= startup_add_arguments(exe_path@));
        } else {
            arguments.push("delete".to_owned());
            arguments.push(RUN_KEY.to_owned());
            arguments.push("/v".to_owned());
            arguments.push(RUN_VALUE.to_owned());
            arguments.push("/f".to_owned());
            assert(texts(arguments@) =~= startup_delete_arguments());
        }
        arguments
    }
}

} // verus!
